//! The properties the machine's contracts promise, stated and proved once
//! over the specification model: dictionary writes advance `HERE` by what
//! they write, article chains terminate, the data stack is first-in
//! first-out by size, formatting and parsing of numbers are inverse, the
//! control-flow marker words balance, and `IMMEDIATE` is idempotent.

use vstd::prelude::*;

use crate::builtin_words::{begin_step, if_step, immediate_step, repeat_step, then_step, while_step};
use crate::literal::{all_digits, digit_of, digits_int, parse_literal_spec, unsigned_parse};
use crate::machine_memory::{MachineMemory, RESERVED_START};
use crate::mem::{mem_read16, mem_read32, mem_write16, mem_write32, wsub16, MEM_SIZE};
use crate::opcodes::pno_digit_char;
use crate::readable_article::{article_body_addr, article_prev, article_valid};
use crate::sized_string::sized_str_len;

verus! {

/// The arena after one byte is appended to the dictionary: the byte lands
/// at `HERE`, which then advances by one. This is exactly what a
/// successful `dict_write_u8` leaves behind.
pub open spec fn dict_append_mem(m: Seq<u8>, value: u8) -> Seq<u8> {
    let here = mem_read16(m, RESERVED_START as int);
    mem_write16(m.update(here as int, value), RESERVED_START as int, (here + 1) as u16)
}

/// The arena after every byte of `bs` is appended in turn.
pub open spec fn dict_append_all(m: Seq<u8>, bs: Seq<u8>) -> Seq<u8>
    decreases bs.len(),
{
    if bs.len() == 0 {
        m
    } else {
        dict_append_all(dict_append_mem(m, bs[0]), bs.subrange(1, bs.len() as int))
    }
}

/// Any sequence of dictionary writes that stays below the reserved region
/// advances `HERE` by exactly the written byte count.
pub proof fn lemma_dict_writes_advance_here(m: Seq<u8>, bs: Seq<u8>)
    requires
        m.len() == MEM_SIZE,
        mem_read16(m, RESERVED_START as int) + bs.len() < RESERVED_START,
    ensures
        dict_append_all(m, bs).len() == MEM_SIZE,
        mem_read16(dict_append_all(m, bs), RESERVED_START as int) == mem_read16(
            m,
            RESERVED_START as int,
        ) + bs.len(),
    decreases bs.len(),
{
    if bs.len() > 0 {
        let here = mem_read16(m, RESERVED_START as int);
        let m1 = dict_append_mem(m, bs[0]);
        crate::machine_memory::lemma_write16_read16(
            m.update(here as int, bs[0]),
            RESERVED_START as int,
            (here + 1) as u16,
        );
        assert(mem_read16(m1, RESERVED_START as int) == here + 1);
        lemma_dict_writes_advance_here(m1, bs.subrange(1, bs.len() as int));
    }
}

/// Walking the article chain from `addr` takes this many steps to reach
/// its end (or a link that leaves the segment).
pub open spec fn chain_steps(m: Seq<u8>, addr: u16, seg: crate::mem::AddressRange) -> nat
    decreases addr,
{
    if !article_valid(m, addr, seg) {
        0
    } else {
        let p = article_prev(m, addr);
        if p >= addr {
            0
        } else {
            1 + chain_steps(m, p, seg)
        }
    }
}

/// The article link chain terminates: because construction enforces
/// `previous < current`, iterating `previous_article` from any article
/// reaches the end in at most `header_address` steps.
pub proof fn lemma_article_chain_terminates(m: Seq<u8>, addr: u16, seg: crate::mem::AddressRange)
    ensures
        chain_steps(m, addr, seg) <= addr,
    decreases addr,
{
    if article_valid(m, addr, seg) {
        let p = article_prev(m, addr);
        if p < addr {
            lemma_article_chain_terminates(m, p, seg);
        }
    }
}

/// Reading a 32-bit value back from where it was just written yields the
/// written value, and other bytes are untouched.
pub proof fn lemma_write32_read32(m: Seq<u8>, a: int, v: u32)
    requires
        0 <= a,
        a + 3 < m.len(),
    ensures
        mem_read32(mem_write32(m, a, v), a) == v,
        mem_write32(m, a, v).len() == m.len(),
        forall|i: int|
            0 <= i < m.len() && !(a <= i <= a + 3) ==> mem_write32(m, a, v)[i] == m[i],
{
    assert(v == v % 0x100 + (v / 0x100 % 0x100) * 0x100 + (v / 0x10000 % 0x100) * 0x10000 + (v
        / 0x1000000 % 0x100) * 0x1000000) by (nonlinear_arith);
}

/// The data stack is first-in first-out by size: pushing a 16-bit value
/// and then a 32-bit value leaves the 32-bit value readable where the next
/// 32-bit pop looks, and the 16-bit value readable where the following
/// 16-bit pop looks.
pub proof fn lemma_stack_fifo_by_size(pre: MachineMemory, v: u16, w: u32)
    requires
        pre.wf(),
        pre.here() + 6 <= pre.data_stack_ptr,
    ensures
        ({
            let sp = pre.data_stack_ptr;
            let m1 = mem_write16(pre.raw_memory@, wsub16(sp, 2) as int, v);
            let m2 = mem_write32(m1, wsub16(wsub16(sp, 2), 4) as int, w);
            &&& mem_read32(m2, wsub16(wsub16(sp, 2), 4) as int) == w
            &&& mem_read16(m2, wsub16(sp, 2) as int) == v
        }),
{
    let sp = pre.data_stack_ptr;
    let m1 = mem_write16(pre.raw_memory@, wsub16(sp, 2) as int, v);
    crate::machine_memory::lemma_write16_read16(pre.raw_memory@, wsub16(sp, 2) as int, v);
    lemma_write32_read32(m1, wsub16(wsub16(sp, 2), 4) as int, w);
}

/// The digits of `n` in base `radix`, most significant first, using the
/// pictured-numeric-output character set (`0`-`9` then `A`-`Z`).
pub open spec fn format_digits(n: nat, radix: nat) -> Seq<u8>
    decreases n,
    via format_digits_decreases
{
    if radix < 2 {
        Seq::empty()
    } else if n < radix {
        seq![pno_digit_char(n as u8)]
    } else {
        format_digits(n / radix, radix).push(pno_digit_char((n % radix) as u8))
    }
}

#[via_fn]
proof fn format_digits_decreases(n: nat, radix: nat) {
    if radix >= 2 && n >= radix {
        assert(n / radix < n) by (nonlinear_arith)
            requires
                n >= radix >= 2,
        ;
    }
}

/// The pictured-output character of a digit below 36 parses back to the
/// same digit.
proof fn lemma_digit_char_round_trip(d: u8)
    requires
        d < 36,
    ensures
        digit_of(pno_digit_char(d)) == Some(d as u32),
{
}

/// Formatting then parsing is the identity: the digit string of `n` is all
/// digits of the radix and denotes `n` again.
pub proof fn lemma_format_digits_value(n: nat, radix: nat)
    requires
        2 <= radix <= 36,
    ensures
        all_digits(format_digits(n, radix), radix as u32),
        digits_int(format_digits(n, radix), radix as u32) == n,
        format_digits(n, radix).len() >= 1,
        digit_of(format_digits(n, radix)[0]) is Some,
    decreases n,
{
    let s = format_digits(n, radix);
    if n < radix {
        lemma_digit_char_round_trip(n as u8);
        assert(s.len() == 1);
        assert(s.last() == pno_digit_char(n as u8));
        assert(digit_of(s.last()) == Some(n as u32));
        assert(s.drop_last() =~= Seq::<u8>::empty());
        assert(digits_int(s.drop_last(), radix as u32) == 0);
        assert(digits_int(s, radix as u32) == 0 * (radix as u32) + n);
        assert(digits_int(s, radix as u32) == n);
    } else {
        lemma_format_digits_value(n / radix, radix);
        let p = format_digits(n / radix, radix);
        lemma_digit_char_round_trip((n % radix) as u8);
        assert(s.drop_last() =~= p);
        assert(s.last() == pno_digit_char((n % radix) as u8));
        assert(digits_int(s, radix as u32) == digits_int(p, radix as u32) * radix + (n % radix));
        assert(n / radix * radix + n % radix == n) by (nonlinear_arith)
            requires
                radix > 0,
        ;
        assert forall|i: int| 0 <= i < s.len() implies (#[trigger] digit_of(s[i]) matches Some(d)
            && d < radix) by {
            if i < p.len() {
                assert(s[i] == p[i]);
            } else {
                assert(s[i] == s.last());
            }
        }
    }
}

/// Literal parse round-trip: for any 16-bit cell, formatting it in a radix
/// between 2 and 36 with the pictured-output digits and re-parsing with
/// that radix yields the cell again.
pub proof fn lemma_parse_format_round_trip(v: u16, radix: nat)
    requires
        2 <= radix <= 36,
    ensures
        parse_literal_spec(format_digits(v as nat, radix), radix as u32) == Some(v),
{
    let s = format_digits(v as nat, radix);
    lemma_format_digits_value(v as nat, radix);
    assert(s[0] != 0x23 && s[0] != 0x24 && s[0] != 0x25 && s[0] != 0x2D && s[0] != 0x2B);
    assert(unsigned_parse(s, radix as u32) == Some(v));
}

/// `IF` and `THEN` balance: a successful `IF` leaves exactly one new cell
/// on the data stack, and the `THEN` that follows consumes exactly one,
/// so the pair leaves the stack depth unchanged.
pub proof fn lemma_if_then_balanced(
    pre: MachineMemory,
    mid: MachineMemory,
    post: MachineMemory,
    r1: Result<(), crate::machine_error::MachineError>,
    r2: Result<(), crate::machine_error::MachineError>,
)
    requires
        if_step(pre, mid, r1),
        r1 is Ok,
        then_step(mid, post, r2),
        r2 is Ok,
        pre.state() is Compiler,
    ensures
        mid.data_stack_ptr == wsub16(pre.data_stack_ptr, 2),
        post.data_stack_ptr == pre.data_stack_ptr,
{
}

/// `ELSE` leaves the stack depth unchanged: it consumes the `IF`'s
/// forward reference and pushes its own in the same cell.
pub proof fn lemma_else_preserves_depth(
    pre: MachineMemory,
    post: MachineMemory,
    r: Result<(), crate::machine_error::MachineError>,
)
    requires
        crate::builtin_words::else_step(pre, post, r),
        r is Ok,
        pre.state() is Compiler,
    ensures
        post.data_stack_ptr == pre.data_stack_ptr,
{
}

/// `BEGIN`, `WHILE` and `REPEAT` balance: `BEGIN` contributes one cell,
/// `WHILE` one more, and `REPEAT` consumes both, so the loop words leave
/// the stack depth unchanged.
pub proof fn lemma_begin_while_repeat_balanced(
    pre: MachineMemory,
    s1: MachineMemory,
    s2: MachineMemory,
    post: MachineMemory,
    r1: Result<(), crate::machine_error::MachineError>,
    r2: Result<(), crate::machine_error::MachineError>,
    r3: Result<(), crate::machine_error::MachineError>,
)
    requires
        begin_step(pre, s1, r1),
        r1 is Ok,
        while_step(s1, s2, r2),
        r2 is Ok,
        repeat_step(s2, post, r3),
        r3 is Ok,
        pre.state() is Compiler,
    ensures
        s1.data_stack_ptr == wsub16(pre.data_stack_ptr, 2),
        s2.data_stack_ptr == wsub16(s1.data_stack_ptr, 2),
        post.data_stack_ptr == pre.data_stack_ptr,
{
}

/// `IMMEDIATE` is idempotent: once it has rewritten the newest article's
/// start opcode, applying it again changes nothing (it reports
/// `UnexpectedArticleType` and leaves every byte as it was), provided the
/// article's body lies below the reserved region.
pub proof fn lemma_immediate_idempotent(
    pre: MachineMemory,
    mid: MachineMemory,
    post: MachineMemory,
    r1: Result<(), crate::machine_error::MachineError>,
    r2: Result<(), crate::machine_error::MachineError>,
)
    requires
        pre.wf(),
        immediate_step(pre, mid, r1),
        r1 is Ok,
        pre.last_article_ptr matches Some(la) && article_body_addr(pre.raw_memory@, la)
            < RESERVED_START,
        immediate_step(mid, post, r2),
    ensures
        post == mid,
        r2 == Err::<(), crate::machine_error::MachineError>(
            crate::machine_error::MachineError::UnexpectedArticleType,
        ),
{
    let la = pre.last_article_ptr->0;
    let body = article_body_addr(pre.raw_memory@, la);
    assert(mid.state_raw() == pre.state_raw());
    assert(mid.here() == pre.here());
    assert(article_valid(mid.raw_memory@, la, mid.dict_segment()));
    assert(sized_str_len(mid.raw_memory@, crate::readable_article::article_name_addr(la))
        == sized_str_len(pre.raw_memory@, crate::readable_article::article_name_addr(la)));
    assert(article_body_addr(mid.raw_memory@, la) == body);
    assert(mid.raw_memory@[body as int] == crate::opcodes::OpCode::Noop.code_spec());
}

} // verus!
