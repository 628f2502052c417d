//! The commands typed at the debugger's console.
use vstd::prelude::*;
use crate::debug::DebuggerCommand;

verus! {

/// The value of a hexadecimal digit, either case.
pub open spec fn hex_digit(c: u8) -> Option<int> {
    if 0x30 <= c <= 0x39 {
        Some(c - 0x30)
    } else if 0x41 <= c <= 0x46 {
        Some(c - 0x41 + 10)
    } else if 0x61 <= c <= 0x66 {
        Some(c - 0x61 + 10)
    } else {
        None
    }
}

/// The number that hexadecimal digits write, the most significant first.
pub open spec fn hex_value(digits: Seq<u8>) -> int
    decreases digits.len(),
{
    if digits.len() == 0 {
        0
    } else {
        hex_value(digits.drop_last()) * 16 + hex_digit(digits.last()).unwrap_or(0)
    }
}

/// The bytes of a command word.
pub open spec fn word_run() -> Seq<u8> {
    seq![0x72u8, 0x75, 0x6E]
}

pub open spec fn word_halt() -> Seq<u8> {
    seq![0x68u8, 0x61, 0x6C, 0x74]
}

pub open spec fn word_step() -> Seq<u8> {
    seq![0x73u8, 0x74, 0x65, 0x70]
}

pub open spec fn word_break_reset() -> Seq<u8> {
    seq![0x62u8, 0x72, 0x65, 0x61, 0x6B, 0x5F, 0x72, 0x65, 0x73, 0x65, 0x74]
}

/// "break_set " with its trailing space.
pub open spec fn word_break_set() -> Seq<u8> {
    seq![0x62u8, 0x72, 0x65, 0x61, 0x6B, 0x5F, 0x73, 0x65, 0x74, 0x20]
}

/// The command that a line of the debugger's console stands for: "run", "halt",
/// "step", "break_reset", or "break_set" and an address of one to four hexadecimal
/// digits.
pub open spec fn command_of(line: Seq<u8>) -> Option<DebuggerCommand> {
    if line == word_run() {
        Some(DebuggerCommand::RUN)
    } else if line == word_halt() {
        Some(DebuggerCommand::HALT)
    } else if line == word_step() {
        Some(DebuggerCommand::STEP)
    } else if line == word_break_reset() {
        Some(DebuggerCommand::BREAK_RESET)
    } else if line.len() >= 11 && line.len() <= 14 && line.subrange(0, 10) == word_break_set()
        && forall|i: int| 10 <= i < line.len() ==> #[trigger] hex_digit(line[i]) is Some {
        Some(DebuggerCommand::BREAK_SET(hex_value(line.subrange(10, line.len() as int)) as u16))
    } else {
        None
    }
}

fn equals(line: &[u8], word: &[u8]) -> (equal: bool)
    ensures
        equal == (line@ == word@),
{
    if line.len() != word.len() {
        return false;
    }
    let mut i: usize = 0;
    while i < line.len()
        invariant
            line@.len() == word@.len(),
            i <= line@.len(),
            forall|k: int| 0 <= k < i ==> line@[k] == word@[k],
        decreases line.len() - i,
    {
        if line[i] != word[i] {
            return false;
        }
        i = i + 1;
    }
    assert(line@ =~= word@);
    true
}

fn hex_digit_value(c: u8) -> (value: Option<u8>)
    ensures
        match hex_digit(c) {
            Some(v) => value == Some(v as u8),
            None => value is None,
        },
{
    if 0x30 <= c && c <= 0x39 {
        Some(c - 0x30)
    } else if 0x41 <= c && c <= 0x46 {
        Some(c - 0x41 + 10)
    } else if 0x61 <= c && c <= 0x66 {
        Some(c - 0x61 + 10)
    } else {
        None
    }
}

/// The debugger command that a console line stands for, if any.
pub fn parse_command(line: &[u8]) -> (command: Option<DebuggerCommand>)
    ensures
        command == command_of(line@),
{
    let run = vec![0x72u8, 0x75, 0x6E];
    let halt = vec![0x68u8, 0x61, 0x6C, 0x74];
    let step = vec![0x73u8, 0x74, 0x65, 0x70];
    let break_reset = vec![0x62u8, 0x72, 0x65, 0x61, 0x6B, 0x5F, 0x72, 0x65, 0x73, 0x65, 0x74];
    let break_set = vec![0x62u8, 0x72, 0x65, 0x61, 0x6B, 0x5F, 0x73, 0x65, 0x74, 0x20];
    assert(run@ =~= word_run());
    assert(halt@ =~= word_halt());
    assert(step@ =~= word_step());
    assert(break_reset@ =~= word_break_reset());
    assert(break_set@ =~= word_break_set());
    if equals(line, run.as_slice()) {
        return Some(DebuggerCommand::RUN);
    }
    if equals(line, halt.as_slice()) {
        return Some(DebuggerCommand::HALT);
    }
    if equals(line, step.as_slice()) {
        return Some(DebuggerCommand::STEP);
    }
    if equals(line, break_reset.as_slice()) {
        return Some(DebuggerCommand::BREAK_RESET);
    }
    if line.len() < 11 || line.len() > 14 {
        return None;
    }
    let mut prefix_matches = true;
    let mut i: usize = 0;
    while i < 10
        invariant
            line@.len() >= 11,
            break_set@ == word_break_set(),
            i <= 10,
            prefix_matches == (forall|k: int| 0 <= k < i ==> line@[k] == break_set@[k]),
        decreases 10 - i,
    {
        if line[i] != break_set[i] {
            prefix_matches = false;
        }
        i = i + 1;
    }
    assert(prefix_matches == (line@.subrange(0, 10) =~= word_break_set()));
    if !prefix_matches {
        return None;
    }
    let ghost digits = line@.subrange(10, line@.len() as int);
    let mut value: u32 = 0;
    let mut j: usize = 10;
    while j < line.len()
        invariant
            11 <= line@.len() <= 14,
            10 <= j <= line@.len(),
            line@ != word_run() && line@ != word_halt() && line@ != word_step()
                && line@ != word_break_reset(),
            line@.subrange(0, 10) == word_break_set(),
            digits == line@.subrange(10, line@.len() as int),
            forall|k: int| 10 <= k < j ==> #[trigger] hex_digit(line@[k]) is Some,
            value == hex_value(line@.subrange(10, j as int)),
            value < pow16(j - 10),
        decreases line.len() - j,
    {
        match hex_digit_value(line[j]) {
            Some(digit) => {
                assert(line@.subrange(10, j + 1).drop_last() =~= line@.subrange(10, j as int));
                proof {
                    lemma_pow16_values();
                }
                value = value * 16 + digit as u32;
            },
            None => {
                assert(!(hex_digit(line@[j as int]) is Some));
                return None;
            },
        }
        j = j + 1;
    }
    assert(line@.subrange(10, j as int) =~= digits);
    proof {
        lemma_pow16_values();
    }
    Some(DebuggerCommand::BREAK_SET(value as u16))
}

/// 16 to the power n.
pub open spec fn pow16(n: int) -> int
    decreases n,
{
    if n <= 0 {
        1
    } else {
        16 * pow16(n - 1)
    }
}

proof fn lemma_pow16_values()
    ensures
        pow16(0) == 1,
        pow16(1) == 16,
        pow16(2) == 256,
        pow16(3) == 4096,
        pow16(4) == 65536,
{
    reveal_with_fuel(pow16, 5);
}

} // verus!
