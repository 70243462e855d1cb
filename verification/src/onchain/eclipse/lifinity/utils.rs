//! Picking the pool and the direction of a swap, and reading what a
//! simulated swap would pay out.

use super::typedefs::{LifinitySwapArgs, TradeDirection, SWAP_INSTRUCTION_NAME};
use crate::onchain::eclipse::common::constants::{
    ETH_PUBKEY, ETH_USDC_AMM_PUBKEY, LIFINITY_PROGRAM_ID, SOL_PUBKEY, SOL_USDC_AMM_PUBKEY,
    USDC_PUBKEY,
};
use crate::onchain::eclipse::common::ixs::{spec_function_hash, InstructionData};
use crate::onchain::eclipse::common::pubkey::Pubkey;
use crate::onchain::eclipse::common::typedefs::{Instruction, InstructionArgs, InstructionView};
use vstd::bytes::spec_u64_to_le_bytes;
use vstd::prelude::*;

verus! {

/// The pair is traded in the pool of ether and USDC.
pub open spec fn spec_is_eth_usdc(token_a: Pubkey, token_b: Pubkey) -> bool {
    ||| token_a.bytes@ == ETH_PUBKEY@ && token_b.bytes@ == USDC_PUBKEY@
    ||| token_a.bytes@ == USDC_PUBKEY@ && token_b.bytes@ == ETH_PUBKEY@
}

/// The pair is traded in the pool of SOL and USDC.
pub open spec fn spec_is_sol_usdc(token_a: Pubkey, token_b: Pubkey) -> bool {
    ||| token_a.bytes@ == SOL_PUBKEY@ && token_b.bytes@ == USDC_PUBKEY@
    ||| token_a.bytes@ == USDC_PUBKEY@ && token_b.bytes@ == SOL_PUBKEY@
}

/// The direction of a swap of `token_a` for `token_b` in a pool: from the
/// pool's first token, which is ether or SOL, to USDC, or the other way. A
/// pool that is not known, or a pair that the pool does not trade, has none.
pub open spec fn spec_trade_direction(pool: Pubkey, token_a: Pubkey, token_b: Pubkey) -> Option<
    TradeDirection,
> {
    let base = if pool.bytes@ == ETH_USDC_AMM_PUBKEY@ {
        Some(ETH_PUBKEY@)
    } else if pool.bytes@ == SOL_USDC_AMM_PUBKEY@ {
        Some(SOL_PUBKEY@)
    } else {
        None
    };
    match base {
        None => None,
        Some(base) => if token_a.bytes@ == base && token_b.bytes@ == USDC_PUBKEY@ {
            Some(TradeDirection::AtoB)
        } else if token_a.bytes@ == USDC_PUBKEY@ && token_b.bytes@ == base {
            Some(TradeDirection::BtoA)
        } else {
            None
        },
    }
}

/// Tells which way a swap of `token_a` for `token_b` goes through the pool.
pub fn determine_trade_direction(pool_pubkey: &Pubkey, token_a: &Pubkey, token_b: &Pubkey) -> (res:
    Option<TradeDirection>)
    ensures
        res == spec_trade_direction(*pool_pubkey, *token_a, *token_b),
{
    let eth = Pubkey { bytes: ETH_PUBKEY };
    let usdc = Pubkey { bytes: USDC_PUBKEY };
    let sol = Pubkey { bytes: SOL_PUBKEY };
    if *pool_pubkey == (Pubkey { bytes: ETH_USDC_AMM_PUBKEY }) {
        if *token_a == eth && *token_b == usdc {
            Some(TradeDirection::AtoB)
        } else if *token_a == usdc && *token_b == eth {
            Some(TradeDirection::BtoA)
        } else {
            None
        }
    } else if *pool_pubkey == (Pubkey { bytes: SOL_USDC_AMM_PUBKEY }) {
        if *token_a == sol && *token_b == usdc {
            Some(TradeDirection::AtoB)
        } else if *token_a == usdc && *token_b == sol {
            Some(TradeDirection::BtoA)
        } else {
            None
        }
    } else {
        None
    }
}

/// Finds the pool in which `token_a` and `token_b` are traded: ether and
/// USDC in one, SOL and USDC in the other, in either order.
pub fn determine_pool_pubkey(token_a: &Pubkey, token_b: &Pubkey) -> (pool: Option<Pubkey>)
    ensures
        spec_is_eth_usdc(*token_a, *token_b) ==> pool is Some && pool.unwrap().bytes@
            == ETH_USDC_AMM_PUBKEY@,
        !spec_is_eth_usdc(*token_a, *token_b) && spec_is_sol_usdc(*token_a, *token_b)
            ==> pool is Some && pool.unwrap().bytes@ == SOL_USDC_AMM_PUBKEY@,
        !spec_is_eth_usdc(*token_a, *token_b) && !spec_is_sol_usdc(*token_a, *token_b)
            ==> pool is None,
{
    let eth = Pubkey { bytes: ETH_PUBKEY };
    let usdc = Pubkey { bytes: USDC_PUBKEY };
    let sol = Pubkey { bytes: SOL_PUBKEY };
    if (*token_a == eth && *token_b == usdc) || (*token_a == usdc && *token_b == eth) {
        Some(Pubkey { bytes: ETH_USDC_AMM_PUBKEY })
    } else if (*token_a == sol && *token_b == usdc) || (*token_a == usdc && *token_b == sol) {
        Some(Pubkey { bytes: SOL_USDC_AMM_PUBKEY })
    } else {
        None
    }
}

/// The swap instruction for these accounts and amounts: the accounts in
/// their order, and as bytes the eight that stand for the name of the
/// instruction and then the two amounts.
pub open spec fn spec_swap_ix(args: LifinitySwapArgs) -> InstructionView {
    InstructionView {
        program_id: Pubkey { bytes: LIFINITY_PROGRAM_ID },
        accounts: args.spec_accounts(),
        data: spec_function_hash(SWAP_INSTRUCTION_NAME) + spec_u64_to_le_bytes(args.amount_in)
            + spec_u64_to_le_bytes(args.minimum_amount_out),
    }
}

/// Builds the swap instruction.
pub fn assemble_swap_ix(args: LifinitySwapArgs) -> (ix: Instruction)
    ensures
        ix@ == spec_swap_ix(args),
{
    let input = args.data();
    let data = input.get_data();
    assert(data@ =~= spec_swap_ix(args).data);
    Instruction { program_id: args.program_id(), accounts: args.accounts(), data }
}

/// The pattern stands in the text at this place.
pub open spec fn spec_matches_at(text: Seq<char>, pattern: Seq<char>, at: int) -> bool {
    &&& 0 <= at
    &&& at + pattern.len() <= text.len()
    &&& text.subrange(at, at + pattern.len()) == pattern
}

/// The first place at or after `from` at which the pattern stands in the text.
pub open spec fn spec_find(text: Seq<char>, pattern: Seq<char>, from: int) -> Option<int>
    decreases text.len() - from + 1,
{
    if from < 0 || from + pattern.len() > text.len() {
        None
    } else if spec_matches_at(text, pattern, from) {
        Some(from)
    } else {
        spec_find(text, pattern, from + 1)
    }
}

/// The character is white space.
pub open spec fn spec_is_whitespace(c: char) -> bool {
    let code = c as u32;
    ||| 0x09 <= code <= 0x0d
    ||| code == 0x20
    ||| code == 0x85
    ||| code == 0xa0
    ||| code == 0x1680
    ||| 0x2000 <= code <= 0x200a
    ||| code == 0x2028
    ||| code == 0x2029
    ||| code == 0x202f
    ||| code == 0x205f
    ||| code == 0x3000
}

/// The text without the white space at its start.
pub open spec fn spec_trim_start(text: Seq<char>) -> Seq<char>
    decreases text.len(),
{
    if text.len() > 0 && spec_is_whitespace(text[0]) {
        spec_trim_start(text.drop_first())
    } else {
        text
    }
}

/// The text without the white space at its end.
pub open spec fn spec_trim_end(text: Seq<char>) -> Seq<char>
    decreases text.len(),
{
    if text.len() > 0 && spec_is_whitespace(text.last()) {
        spec_trim_end(text.drop_last())
    } else {
        text
    }
}

/// The text without the white space at its start and at its end.
pub open spec fn spec_trim(text: Seq<char>) -> Seq<char> {
    spec_trim_end(spec_trim_start(text))
}

/// The character is one of the ten digits.
pub open spec fn spec_is_digit(c: char) -> bool {
    0x30 <= c as u32 <= 0x39
}

/// The text holds digits and nothing else.
pub open spec fn spec_all_digits(text: Seq<char>) -> bool {
    forall|i: int| 0 <= i < text.len() ==> #[trigger] spec_is_digit(text[i])
}

/// The number that a digit stands for.
pub open spec fn spec_digit(c: char) -> nat {
    if spec_is_digit(c) {
        (c as u32 - 0x30) as nat
    } else {
        0
    }
}

/// The number that a text of digits writes in base ten.
pub open spec fn spec_digits_value(digits: Seq<char>) -> nat
    decreases digits.len(),
{
    if digits.len() == 0 {
        0
    } else {
        spec_digits_value(digits.drop_last()) * 10 + spec_digit(digits.last())
    }
}

/// The number of 64 bits that a text writes: an optional plus sign and then
/// digits, at least one and nothing else, whose value fits.
pub open spec fn spec_parse_u64(text: Seq<char>) -> Option<u64> {
    let digits = if text.len() > 0 && text[0] == '+' {
        text.drop_first()
    } else {
        text
    };
    if digits.len() == 0 || !spec_all_digits(digits) || spec_digits_value(digits) > u64::MAX {
        None
    } else {
        Some(spec_digits_value(digits) as u64)
    }
}

/// The key under which a log names what a swap pays out.
pub open spec fn spec_out_key() -> Seq<char> {
    seq!['"', 'o', 'u', 't', '"']
}

/// What a line of the log says a swap pays out.
///
/// The line is searched for the first `"out"`. One character is skipped
/// after it, which has to be there and to take one byte. What stands from
/// there to the next comma is the number, with white space around it taken
/// off. Without the key, the character, the comma or a number there is no
/// value.
pub open spec fn spec_extract_out_value(log: Seq<char>) -> Option<u64> {
    match spec_find(log, spec_out_key(), 0) {
        None => None,
        Some(key_at) => if key_at + 6 > log.len() || log[key_at + 5] as u32 >= 0x80 {
            None
        } else {
            match spec_find(log, seq![','], key_at + 6) {
                None => None,
                Some(end) => spec_parse_u64(spec_trim(log.subrange(key_at + 6, end))),
            }
        },
    }
}

/// The characters of a text.
pub fn chars_of(text: &str) -> (chars: Vec<char>)
    ensures
        chars@ == text@,
{
    let count = text.unicode_len();
    let mut chars: Vec<char> = Vec::new();
    let mut at: usize = 0;
    while at < count
        invariant
            at <= count,
            count == text@.len(),
            chars@ == text@.take(at as int),
        decreases count - at,
    {
        chars.push(text.get_char(at));
        at = at + 1;
        assert(chars@ =~= text@.take(at as int));
    }
    assert(text@.take(count as int) =~= text@);
    chars
}

/// Whether the pattern stands in the text at this place.
fn matches_at(text: &Vec<char>, pattern: &Vec<char>, at: usize) -> (matches: bool)
    requires
        at + pattern@.len() <= text@.len(),
    ensures
        matches == spec_matches_at(text@, pattern@, at as int),
{
    let limit: usize = text.len();
    let mut i: usize = 0;
    while i < pattern.len()
        invariant
            i <= pattern@.len(),
            at + pattern@.len() <= text@.len(),
            limit == text@.len(),
            forall|k: int| 0 <= k < i ==> text@[at + k] == pattern@[k],
        decreases pattern.len() - i,
    {
        if text[at + i] != pattern[i] {
            assert(text@.subrange(at as int, at + pattern@.len())[i as int] != pattern@[i as int]);
            return false;
        }
        i = i + 1;
    }
    assert(text@.subrange(at as int, at + pattern@.len()) =~= pattern@);
    true
}

/// Finds the first place at or after `from` at which the pattern stands in
/// the text.
pub fn find(text: &Vec<char>, pattern: &Vec<char>, from: usize) -> (found: Option<usize>)
    ensures
        match found {
            Some(at) => spec_find(text@, pattern@, from as int) == Some(at as int),
            None => spec_find(text@, pattern@, from as int) is None,
        },
{
    if pattern.len() > text.len() {
        return None;
    }
    let last: usize = text.len() - pattern.len();
    let mut at: usize = from;
    while at <= last
        invariant
            from <= at,
            last == text@.len() - pattern@.len(),
            spec_find(text@, pattern@, from as int) == spec_find(text@, pattern@, at as int),
        decreases last - at,
    {
        if matches_at(text, pattern, at) {
            return Some(at);
        }
        if at == last {
            assert(spec_find(text@, pattern@, at + 1) is None);
            return None;
        }
        at = at + 1;
    }
    None
}

/// Whether the character is white space.
fn is_whitespace(c: char) -> (white: bool)
    ensures
        white == spec_is_whitespace(c),
{
    let code: u32 = c as u32;
    (0x09 <= code && code <= 0x0d) || code == 0x20 || code == 0x85 || code == 0xa0 || code
        == 0x1680 || (0x2000 <= code && code <= 0x200a) || code == 0x2028 || code == 0x2029
        || code == 0x202f || code == 0x205f || code == 0x3000
}

/// Reads the number that the characters at places `start..end` write, with
/// white space around it taken off.
#[verifier::loop_isolation(false)]
fn parse_trimmed(text: &Vec<char>, start: usize, end: usize) -> (value: Option<u64>)
    requires
        start <= end <= text@.len(),
    ensures
        value == spec_parse_u64(spec_trim(text@.subrange(start as int, end as int))),
{
    let ghost whole = text@.subrange(start as int, end as int);
    let mut low: usize = start;
    while low < end && is_whitespace(text[low])
        invariant
            start <= low <= end <= text@.len(),
            spec_trim_start(whole) == spec_trim_start(text@.subrange(low as int, end as int)),
        decreases end - low,
    {
        proof {
            let here = text@.subrange(low as int, end as int);
            assert(here.drop_first() =~= text@.subrange(low + 1, end as int));
        }
        low = low + 1;
    }
    let ghost left = text@.subrange(low as int, end as int);
    assert(spec_trim_start(whole) == left);
    let mut high: usize = end;
    while low < high && is_whitespace(text[high - 1])
        invariant
            low <= high <= end <= text@.len(),
            spec_trim_end(left) == spec_trim_end(text@.subrange(low as int, high as int)),
        decreases high - low,
    {
        proof {
            let here = text@.subrange(low as int, high as int);
            assert(here.drop_last() =~= text@.subrange(low as int, high - 1));
        }
        high = high - 1;
    }
    let ghost trimmed = text@.subrange(low as int, high as int);
    assert(spec_trim(whole) == trimmed);
    let first: usize = if low < high && text[low] == '+' {
        low + 1
    } else {
        low
    };
    let ghost digits = text@.subrange(first as int, high as int);
    proof {
        if first > low {
            assert(trimmed.drop_first() =~= digits);
        } else {
            assert(trimmed =~= digits);
        }
    }
    if first == high {
        return None;
    }
    let mut value: u64 = 0;
    let mut at: usize = first;
    while at < high
        invariant
            first <= at <= high <= text@.len(),
            digits == text@.subrange(first as int, high as int),
            forall|i: int| 0 <= i < at - first ==> #[trigger] spec_is_digit(digits[i]),
            value == spec_digits_value(digits.take(at - first)),
        decreases high - at,
    {
        let code: u32 = text[at] as u32;
        assert(digits[at - first] == text@[at as int]);
        if code < 0x30 || code > 0x39 {
            assert(!spec_is_digit(digits[at - first]));
            return None;
        }
        let digit: u64 = (code - 0x30) as u64;
        proof {
            assert(digits.take(at - first + 1).drop_last() =~= digits.take(at - first));
            assert(digits.take(at - first + 1).last() == text@[at as int]);
            assert(spec_digit(text@[at as int]) == digit);
        }
        if value > (u64::MAX - digit) / 10 {
            proof {
                let upto = digits.take(at - first + 1);
                assert(spec_digits_value(upto) > u64::MAX) by (nonlinear_arith)
                    requires
                        spec_digits_value(upto) == value * 10 + digit,
                        value > (u64::MAX - digit) / 10,
                        0 <= digit <= 9,
                ;
                lemma_digits_value_grows(digits, at - first + 1);
            }
            return None;
        }
        assert(value * 10 + digit <= u64::MAX) by (nonlinear_arith)
            requires
                value <= (u64::MAX - digit) / 10,
                0 <= digit <= 9,
        ;
        value = value * 10 + digit;
        at = at + 1;
    }
    proof {
        assert(digits.take(high - first) =~= digits);
    }
    Some(value)
}

/// The value of the first digits of a text is at most the value of all of
/// them.
proof fn lemma_digits_value_grows(digits: Seq<char>, count: int)
    requires
        0 <= count <= digits.len(),
    ensures
        spec_digits_value(digits.take(count)) <= spec_digits_value(digits),
    decreases digits.len() - count,
{
    if count < digits.len() {
        lemma_digits_value_grows(digits, count + 1);
        assert(digits.take(count + 1).drop_last() =~= digits.take(count));
    } else {
        assert(digits.take(count) =~= digits);
    }
}

/// Reads from a line of the log what a swap pays out.
pub fn extract_out_value(log: &str) -> (value: Option<u64>)
    ensures
        value == spec_extract_out_value(log@),
{
    let text = chars_of(log);
    let mut key: Vec<char> = Vec::new();
    key.push('"');
    key.push('o');
    key.push('u');
    key.push('t');
    key.push('"');
    assert(key@ =~= spec_out_key());
    assert(key@.len() == 5);
    let key_at = match find(&text, &key, 0) {
        Some(at) => at,
        None => {
            return None;
        },
    };
    proof {
        lemma_find_in_range(text@, key@, 0);
        assert(key@.len() == 5);
    }
    let limit: usize = text.len();
    if key_at + 5 >= limit || text[key_at + 5] as u32 >= 0x80 {
        return None;
    }
    let start: usize = key_at + 6;
    let mut comma: Vec<char> = Vec::new();
    comma.push(',');
    assert(comma@ =~= seq![',']);
    let end = match find(&text, &comma, start) {
        Some(at) => at,
        None => {
            return None;
        },
    };
    proof {
        lemma_find_in_range(text@, comma@, start as int);
        assert(comma@.len() == 1);
    }
    parse_trimmed(&text, start, end)
}

/// A place that is found lies at or after the start of the search, and the
/// pattern fits between it and the end of the text.
pub proof fn lemma_find_in_range(text: Seq<char>, pattern: Seq<char>, from: int)
    ensures
        spec_find(text, pattern, from) is Some ==> from <= spec_find(text, pattern, from).unwrap()
            && spec_find(text, pattern, from).unwrap() + pattern.len() <= text.len()
            && spec_matches_at(text, pattern, spec_find(text, pattern, from).unwrap()),
    decreases text.len() - from + 1,
{
    if from < 0 || from + pattern.len() > text.len() {
    } else if spec_matches_at(text, pattern, from) {
    } else {
        lemma_find_in_range(text, pattern, from + 1);
    }
}

} // verus!
