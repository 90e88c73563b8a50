//! A reader for linked dictionary entries. An article is stored as: 2 bytes
//! holding the header address of the previous article (or `0xFFFF` for the
//! first), a sized string holding the name, and the body of bytecode.
//! Construction enforces `prev < current` along the chain, so walking the
//! chain terminates.

use vstd::prelude::*;

use crate::mem::{mem_read16, wadd16, Address, AddressRange, Mem, MemoryAccessError};
use crate::sized_string::{
    sized_str_content_bytes, sized_str_len, sized_str_valid, ReadableSizedString,
};

verus! {

/// The previous-article pointer stored in the first two header bytes.
pub open spec fn article_prev(m: Seq<u8>, addr: u16) -> u16 {
    mem_read16(m, addr as int)
}

/// The address of the article's name, a sized string.
pub open spec fn article_name_addr(addr: u16) -> u16 {
    wadd16(addr, 2)
}

/// The length of the article's name.
pub open spec fn article_name_len(m: Seq<u8>, addr: u16) -> u8 {
    sized_str_len(m, article_name_addr(addr))
}

/// The bytes of the article's name.
pub open spec fn article_name_bytes(m: Seq<u8>, addr: u16) -> Seq<u8> {
    sized_str_content_bytes(m, article_name_addr(addr))
}

/// The address of the first body byte: right after the name.
pub open spec fn article_body_addr(m: Seq<u8>, addr: u16) -> u16 {
    wadd16(wadd16(article_name_addr(addr), article_name_len(m, addr) as u16), 1)
}

/// The article header and its name lie wholly inside `seg`.
pub open spec fn article_valid(m: Seq<u8>, addr: u16, seg: AddressRange) -> bool {
    (AddressRange { start: addr, end: wadd16(addr, 3) }).within(seg) && sized_str_valid(
        m,
        article_name_addr(addr),
        seg,
    )
}

/// Walks the article chain from `cur`, most recent first, and answers with
/// the header address of the first article whose name equals `name`; `None`
/// when the chain ends first, an error when a link leaves `seg`. The chain
/// terminates because each step strictly decreases the header address.
pub open spec fn lookup_chain(m: Seq<u8>, cur: u16, seg: AddressRange, name: Seq<u8>) -> Result<
    Option<u16>,
    (),
>
    decreases cur,
{
    if !article_valid(m, cur, seg) {
        Err(())
    } else if article_name_bytes(m, cur) == name {
        Ok(Some(cur))
    } else {
        let p = article_prev(m, cur);
        if p >= cur {
            Ok(None)
        } else {
            lookup_chain(m, p, seg, name)
        }
    }
}

/// A helper to access an article stored in the machine's dictionary.
#[derive(Copy, Clone)]
pub struct ReadableArticle<'m> {
    memory: &'m Mem,
    header_address: Address,
}

impl<'m> ReadableArticle<'m> {
    pub closed spec fn mem(self) -> Mem {
        *self.memory
    }

    pub closed spec fn addr(self) -> Address {
        self.header_address
    }

    pub open spec fn wf(self) -> bool {
        self.mem().wf()
    }

    /// Validates the header bytes and the name against `safe_memory_range`;
    /// succeeds exactly when the article lies in the range.
    pub fn new(memory: &'m Mem, header_address: Address, safe_memory_range: AddressRange) -> (r:
        Result<ReadableArticle<'m>, MemoryAccessError>)
        requires
            memory.wf(),
        ensures
            r is Ok <==> article_valid(memory@, header_address, safe_memory_range),
            r is Ok ==> r->Ok_0.mem() == *memory && r->Ok_0.addr() == header_address,
    {
        memory.validate_access(
            AddressRange { start: header_address, end: header_address.wrapping_add(3) },
            safe_memory_range,
        )?;

        let article = ReadableArticle { memory, header_address };

        article.name().validate_content(safe_memory_range)?;

        Ok(article)
    }

    pub fn get_header_address(&self) -> (r: Address)
        ensures
            r == self.addr(),
    {
        self.header_address
    }

    /// Address of the sized string containing the name of this article.
    pub fn name_address(&self) -> (r: Address)
        ensures
            r == article_name_addr(self.addr()),
    {
        self.header_address.wrapping_add(2)
    }

    /// The article name as a sized-string view over the machine's memory.
    pub fn name(&self) -> (r: ReadableSizedString<'m>)
        requires
            self.wf(),
        ensures
            r.mem() == self.mem() && r.addr() == article_name_addr(self.addr()),
    {
        ReadableSizedString::new_unchecked(self.memory, self.name_address())
    }

    /// Address of the first byte of the article body.
    pub fn body_address(&self) -> (r: Address)
        requires
            self.wf(),
        ensures
            r == article_body_addr(self.mem()@, self.addr()),
    {
        self.name_address().wrapping_add(self.name().read_length() as u16).wrapping_add(1)
    }

    /// Address of the header of the previous article.
    pub fn previous_address(&self) -> (r: Address)
        requires
            self.wf(),
            self.addr() < 0xFFFF,
        ensures
            r == article_prev(self.mem()@, self.addr()),
    {
        self.memory.read_u16(self.header_address)
    }

    /// The previous article, or `None` when the stored pointer does not
    /// decrease (which ends the chain).
    pub fn previous_article(&self, safe_memory_range: AddressRange) -> (r: Result<
        Option<ReadableArticle<'m>>,
        MemoryAccessError,
    >)
        requires
            self.wf(),
            self.addr() < 0xFFFF,
        ensures
            ({
                let prev = article_prev(self.mem()@, self.addr());
                &&& (r is Ok && r->Ok_0 is None) <==> prev >= self.addr()
                &&& (r is Ok && r->Ok_0 is Some) <==> (prev < self.addr() && article_valid(
                    self.mem()@,
                    prev,
                    safe_memory_range,
                ))
                &&& (r is Ok && r->Ok_0 is Some) ==> r->Ok_0->0.mem() == self.mem()
                    && r->Ok_0->0.addr() == prev
            }),
    {
        let prev_address = self.previous_address();

        if prev_address >= self.header_address {
            return Ok(None);
        }

        Ok(Some(ReadableArticle::new(self.memory, prev_address, safe_memory_range)?))
    }
}

/// Walks the article chain from the most recent article backward.
pub struct ReadableArticlesIterator<'m> {
    safe_range: AddressRange,
    current_article: Option<ReadableArticle<'m>>,
    started: bool,
}

impl<'m> ReadableArticlesIterator<'m> {
    pub closed spec fn range(self) -> AddressRange {
        self.safe_range
    }

    pub closed spec fn current(self) -> Option<ReadableArticle<'m>> {
        self.current_article
    }

    pub closed spec fn has_started(self) -> bool {
        self.started
    }

    pub open spec fn wf(self) -> bool {
        self.current() matches Some(a) ==> a.wf() && article_valid(
            a.mem()@,
            a.addr(),
            self.range(),
        )
    }

    pub fn new(memory: &'m Mem, address: Option<Address>, safe_range: AddressRange) -> (r:
        ReadableArticlesIterator<'m>)
        requires
            memory.wf(),
        ensures
            r.wf(),
            !r.has_started(),
            r.range() == safe_range,
            r.current() is Some <==> (address matches Some(addr) && article_valid(
                memory@,
                addr,
                safe_range,
            )),
            r.current() matches Some(a) ==> a.mem() == *memory && Some(a.addr()) == address,
    {
        let current_article = match address {
            None => None,
            Some(addr) => match ReadableArticle::new(memory, addr, safe_range) {
                Ok(article) => Some(article),
                Err(_) => None,
            },
        };

        ReadableArticlesIterator { safe_range, current_article, started: false }
    }

    /// The next article of the chain: the current one on the first call,
    /// each one's predecessor afterwards, `None` past the end or on a
    /// broken link.
    pub fn next(&mut self) -> (r: Option<ReadableArticle<'m>>)
        requires
            old(self).wf(),
        ensures
            final(self).wf(),
            final(self).has_started(),
            final(self).range() == old(self).range(),
            !old(self).has_started() ==> r == old(self).current() && final(self).current() == old(self).current(),
            old(self).has_started() ==> r == final(self).current(),
            (old(self).has_started() && old(self).current() is Some) ==> (match final(self).current() {
                Option::Some(p) => {
                    let a = old(self).current()->0;
                    p.mem() == a.mem() && p.addr() == article_prev(a.mem()@, a.addr())
                        && p.addr() < a.addr()
                },
                Option::None => true,
            }),
            old(self).current() is None ==> r is None,
    {
        if self.started {
            if let Some(article) = &self.current_article {
                proof {
                    assert(article_valid(article.mem()@, article.addr(), self.range()));
                }
                self.current_article = match article.previous_article(self.safe_range) {
                    Ok(next) => next,
                    Err(_) => None,
                };
            }
        } else {
            self.started = true;
        }

        self.current_article
    }
}

} // verus!
