#![verifier::loop_isolation(false)]

pub mod mem;
pub mod sized_string;
pub mod machine_state;
pub mod machine_memory;
pub mod opcodes;
pub mod readable_article;
pub mod input;
pub mod output;
pub mod machine_error;
pub mod machine;
pub mod stack_effect;
pub mod literal;
pub mod builtin_words;
pub mod laws;
pub mod memory_segment;
pub mod interpreters;
pub mod print_debug_info;
