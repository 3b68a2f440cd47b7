//! Correlation ids: validation of caller-supplied ids, and generation of
//! fresh ones of the shape `req-<hex timestamp>-<hex sequence>` from a
//! strictly increasing per-process sequence. Ids are opaque trace tokens and
//! carry no authorization meaning.

use vstd::prelude::*;
use crate::chars::{is_id_char, id_char, is_ascii_alphanumeric_char};
use crate::text::{trim_spec, trim_str, chars_of};

verus! {

/// A valid caller-supplied correlation id: 1 to 64 characters, each an
/// ASCII alphanumeric, `-` or `_`.
pub open spec fn valid_correlation_id(s: Seq<char>) -> bool {
    1 <= s.len() <= 64 && forall|i: int| 0 <= i < s.len() ==> is_id_char(#[trigger] s[i])
}

/// The lower-case hex digit for a value below sixteen.
pub open spec fn hex_digit(n: int) -> char
    recommends
        0 <= n < 16,
{
    if n < 10 {
        ((48 + n) as u8) as char
    } else {
        ((87 + n) as u8) as char
    }
}

/// The lower-case hex digits of `n`, most significant first, without
/// leading zeros and with a single `0` for zero, as `{:x}` renders it.
pub open spec fn hex_chars(n: nat) -> Seq<char>
    decreases n,
{
    if n < 16 {
        seq![hex_digit(n as int)]
    } else {
        hex_chars(n / 16).push(hex_digit((n % 16) as int))
    }
}

/// A freshly generated correlation id: `req-`, the timestamp in hex, `-`,
/// the sequence number in hex.
pub open spec fn generated_id(timestamp: nat, sequence: nat) -> Seq<char> {
    "req-"@ + hex_chars(timestamp) + "-"@ + hex_chars(sequence)
}

/// Sixteen to the power `k`.
pub open spec fn pow16(k: nat) -> nat
    decreases k,
{
    if k == 0 {
        1
    } else {
        16 * pow16((k - 1) as nat)
    }
}

proof fn lemma_hex_chars_alphanumeric(n: nat)
    ensures
        1 <= hex_chars(n).len(),
        forall|i: int|
            0 <= i < hex_chars(n).len() ==> is_ascii_alphanumeric_char(#[trigger] hex_chars(n)[i]),
    decreases n,
{
    assert(is_ascii_alphanumeric_char(hex_digit((n % 16) as int)));
    if n < 16 {
    } else {
        lemma_hex_chars_alphanumeric(n / 16);
    }
}

proof fn lemma_hex_chars_len(n: nat, k: nat)
    requires
        1 <= k,
        n < pow16(k),
    ensures
        hex_chars(n).len() <= k,
    decreases n,
{
    if n < 16 {
    } else {
        if k == 1 {
            assert(pow16(1) == 16);
        }
        assert(n / 16 < pow16((k - 1) as nat)) by (nonlinear_arith)
            requires
                n < 16 * pow16((k - 1) as nat),
                16 <= n,
        ;
        lemma_hex_chars_len(n / 16, (k - 1) as nat);
    }
}

proof fn lemma_hex_chars_len_u64(n: u64)
    ensures
        1 <= hex_chars(n as nat).len() <= 16,
{
    assert(pow16(0) == 1);
    assert(pow16(1) == 16);
    assert(pow16(2) == 0x100);
    assert(pow16(3) == 0x1000);
    assert(pow16(4) == 0x1_0000);
    assert(pow16(5) == 0x10_0000);
    assert(pow16(6) == 0x100_0000);
    assert(pow16(7) == 0x1000_0000);
    assert(pow16(8) == 0x1_0000_0000);
    assert(pow16(9) == 0x10_0000_0000);
    assert(pow16(10) == 0x100_0000_0000);
    assert(pow16(11) == 0x1000_0000_0000);
    assert(pow16(12) == 0x1_0000_0000_0000);
    assert(pow16(13) == 0x10_0000_0000_0000);
    assert(pow16(14) == 0x100_0000_0000_0000);
    assert(pow16(15) == 0x1000_0000_0000_0000);
    assert(pow16(16) == 0x1_0000_0000_0000_0000);
    lemma_hex_chars_len(n as nat, 16);
    lemma_hex_chars_alphanumeric(n as nat);
}

proof fn lemma_hex_chars_injective(a: nat, b: nat)
    requires
        hex_chars(a) == hex_chars(b),
    ensures
        a == b,
    decreases a,
{
    lemma_hex_chars_alphanumeric(a);
    lemma_hex_chars_alphanumeric(b);
    if a < 16 && b < 16 {
        assert(hex_chars(a)[0] == hex_digit(a as int));
        assert(hex_chars(b)[0] == hex_digit(b as int));
        assert(hex_digit(a as int) as u32 == hex_digit(b as int) as u32);
    } else if a < 16 {
        lemma_hex_chars_alphanumeric(b / 16);
        assert(hex_chars(b).len() >= 2);
    } else if b < 16 {
        lemma_hex_chars_alphanumeric(a / 16);
        assert(hex_chars(a).len() >= 2);
    } else {
        let pa = hex_chars(a / 16);
        let pb = hex_chars(b / 16);
        assert(hex_chars(a).last() == hex_digit((a % 16) as int));
        assert(hex_chars(b).last() == hex_digit((b % 16) as int));
        assert(hex_digit((a % 16) as int) as u32 == hex_digit((b % 16) as int) as u32);
        assert(a % 16 == b % 16);
        assert(pa =~= hex_chars(a).drop_last());
        assert(pb =~= hex_chars(b).drop_last());
        lemma_hex_chars_injective(a / 16, b / 16);
    }
}

proof fn lemma_generated_id_parts(timestamp: nat, sequence: nat)
    ensures
        generated_id(timestamp, sequence).len() == 5 + hex_chars(timestamp).len() + hex_chars(
            sequence,
        ).len(),
        generated_id(timestamp, sequence)[4 + hex_chars(timestamp).len() as int] == '-',
        forall|i: int|
            0 <= i < hex_chars(sequence).len() ==> #[trigger] hex_chars(sequence)[i]
                == generated_id(timestamp, sequence)[5 + hex_chars(timestamp).len() + i],
{
    reveal_strlit("req-");
    reveal_strlit("-");
    assert("req-"@.len() == 4);
    assert("-"@.len() == 1);
}

/// No two generated correlation ids with distinct sequence numbers are
/// equal, whatever their timestamps: within one process run, where the
/// sequence strictly increases, a generated id is never reused.
pub proof fn lemma_generated_ids_distinct(
    timestamp1: nat,
    sequence1: nat,
    timestamp2: nat,
    sequence2: nat,
)
    requires
        sequence1 != sequence2,
    ensures
        generated_id(timestamp1, sequence1) != generated_id(timestamp2, sequence2),
{
    let id1 = generated_id(timestamp1, sequence1);
    let id2 = generated_id(timestamp2, sequence2);
    let h1 = hex_chars(sequence1);
    let h2 = hex_chars(sequence2);
    lemma_generated_id_parts(timestamp1, sequence1);
    lemma_generated_id_parts(timestamp2, sequence2);
    lemma_hex_chars_alphanumeric(sequence1);
    lemma_hex_chars_alphanumeric(sequence2);
    if id1 == id2 {
        if h1.len() == h2.len() {
            assert forall|i: int| 0 <= i < h1.len() implies h1[i] == h2[i] by {
                assert(h1[i] == id1[5 + hex_chars(timestamp1).len() + i]);
                assert(h2[i] == id2[5 + hex_chars(timestamp2).len() + i]);
            }
            assert(h1 =~= h2);
            lemma_hex_chars_injective(sequence1, sequence2);
        } else if h1.len() < h2.len() {
            // the separator of the first id falls inside the hex digits of
            // the second, and a hex digit is never '-'
            let pos = id1.len() - h1.len() - 1;
            assert(id1[pos] == '-');
            assert(id2[pos] == h2[pos - (id2.len() - h2.len())]);
            assert(is_ascii_alphanumeric_char(id2[pos]));
        } else {
            let pos = id2.len() - h2.len() - 1;
            assert(id2[pos] == '-');
            assert(id1[pos] == h1[pos - (id1.len() - h1.len())]);
            assert(is_ascii_alphanumeric_char(id1[pos]));
        }
    }
}

/// The process-wide source of sequence numbers for generated ids. It starts
/// at one and advances only when an id is actually generated.
pub struct CorrelationSequence {
    pub next: u64,
}

impl CorrelationSequence {
    /// A fresh sequence, as the process starts with it.
    pub fn new() -> (s: Self)
        ensures
            s.next == 1,
    {
        CorrelationSequence { next: 1 }
    }

    /// Hands out the next sequence number and advances, strictly.
    pub fn take_next(&mut self) -> (n: u64)
        requires
            old(self).next < u64::MAX,
        ensures
            n == old(self).next,
            final(self).next == old(self).next + 1,
    {
        let n = self.next;
        self.next = self.next + 1;
        n
    }
}

/// Relies on std's `SystemTime`: milliseconds since the Unix epoch, or zero
/// when the clock is unavailable or reads before the epoch. The result
/// depends on the clock, so nothing is promised of it; callers state what
/// holds for every value.
#[verifier::external_body]
fn current_unix_millis() -> u64 {
    std::time::SystemTime::now()
        .duration_since(std::time::UNIX_EPOCH)
        .map(|duration| duration.as_millis() as u64)
        .unwrap_or(0)
}

/// Whether `value` may be reused as a correlation id.
pub fn is_valid_correlation_id(value: &str) -> (r: bool)
    ensures
        r == valid_correlation_id(value@),
{
    let v = chars_of(value);
    let n = v.len();
    if n < 1 || n > 64 {
        return false;
    }
    let mut i: usize = 0;
    while i < n
        invariant
            n == v@.len(),
            v@ == value@,
            i <= n,
            forall|j: int| 0 <= j < i ==> is_id_char(#[trigger] value@[j]),
        decreases n - i,
    {
        if !id_char(v[i]) {
            return false;
        }
        i = i + 1;
    }
    true
}

fn hex_digit_str(d: u64) -> (s: &'static str)
    requires
        d < 16,
    ensures
        s@ =~= seq![hex_digit(d as int)],
{
    proof {
        reveal_strlit("0");
        reveal_strlit("1");
        reveal_strlit("2");
        reveal_strlit("3");
        reveal_strlit("4");
        reveal_strlit("5");
        reveal_strlit("6");
        reveal_strlit("7");
        reveal_strlit("8");
        reveal_strlit("9");
        reveal_strlit("a");
        reveal_strlit("b");
        reveal_strlit("c");
        reveal_strlit("d");
        reveal_strlit("e");
        reveal_strlit("f");
    }
    if d == 0 {
        "0"
    } else if d == 1 {
        "1"
    } else if d == 2 {
        "2"
    } else if d == 3 {
        "3"
    } else if d == 4 {
        "4"
    } else if d == 5 {
        "5"
    } else if d == 6 {
        "6"
    } else if d == 7 {
        "7"
    } else if d == 8 {
        "8"
    } else if d == 9 {
        "9"
    } else if d == 10 {
        "a"
    } else if d == 11 {
        "b"
    } else if d == 12 {
        "c"
    } else if d == 13 {
        "d"
    } else if d == 14 {
        "e"
    } else {
        "f"
    }
}

/// `n` in lower-case hex, as `{:x}` renders it.
pub fn hex_string(n: u64) -> (s: String)
    ensures
        s@ == hex_chars(n as nat),
    decreases n,
{
    if n < 16 {
        let s = String::from_str(hex_digit_str(n));
        proof {
            assert(s@ =~= hex_chars(n as nat));
        }
        s
    } else {
        let mut s = hex_string(n / 16);
        s.append(hex_digit_str(n % 16));
        proof {
            assert(s@ =~= hex_chars((n / 16) as nat).push(hex_digit((n % 16) as int)));
        }
        s
    }
}

proof fn lemma_generated_id_valid(timestamp: u64, sequence: u64)
    ensures
        valid_correlation_id(generated_id(timestamp as nat, sequence as nat)),
{
    reveal_strlit("req-");
    reveal_strlit("-");
    let h1 = hex_chars(timestamp as nat);
    let h2 = hex_chars(sequence as nat);
    let s = generated_id(timestamp as nat, sequence as nat);
    lemma_hex_chars_len_u64(timestamp);
    lemma_hex_chars_len_u64(sequence);
    lemma_hex_chars_alphanumeric(timestamp as nat);
    lemma_hex_chars_alphanumeric(sequence as nat);
    assert("req-"@.len() == 4);
    assert(s.len() == 5 + h1.len() + h2.len());
    assert forall|i: int| 0 <= i < s.len() implies is_id_char(#[trigger] s[i]) by {
        if i < 4 {
            assert(s[i] == "req-"@[i]);
            assert(is_id_char("req-"@[0]));
            assert(is_id_char("req-"@[1]));
            assert(is_id_char("req-"@[2]));
            assert(is_id_char("req-"@[3]));
        } else if i < 4 + h1.len() {
            assert(s[i] == h1[i - 4]);
        } else if i == 4 + h1.len() {
            assert(s[i] == "-"@[0]);
            assert(is_id_char("-"@[0]));
        } else {
            assert(s[i] == h2[i - 5 - h1.len()]);
        }
    }
}

/// Generates a fresh id `req-<hex timestamp>-<hex sequence>`, consuming one
/// sequence number.
pub fn generate_correlation_id(sequence: &mut CorrelationSequence) -> (id: String)
    requires
        old(sequence).next < u64::MAX,
    ensures
        final(sequence).next == old(sequence).next + 1,
        exists|timestamp: nat| id@ == generated_id(timestamp, old(sequence).next as nat),
        valid_correlation_id(id@),
{
    let timestamp = current_unix_millis();
    let n = sequence.take_next();
    let mut id = String::from_str("req-");
    let timestamp_hex = hex_string(timestamp);
    id.append(timestamp_hex.as_str());
    id.append("-");
    let sequence_hex = hex_string(n);
    id.append(sequence_hex.as_str());
    proof {
        assert(id@ =~= generated_id(timestamp as nat, n as nat));
        lemma_generated_id_valid(timestamp, n);
    }
    id
}

/// Resolves the correlation id for one request: a caller-supplied value
/// that is valid after trimming is reused verbatim, and the sequence is
/// untouched; anything else, including an absent header, is answered with a
/// freshly generated id, consuming one sequence number.
pub fn correlation_id_from(header_value: Option<&str>, sequence: &mut CorrelationSequence) -> (id:
    String)
    requires
        old(sequence).next < u64::MAX,
    ensures
        valid_correlation_id(id@),
        resolved_id(id@, spec_header_view(header_value), *old(sequence), *final(sequence)),
{
    match header_value {
        Option::Some(value) => {
            let trimmed = trim_str(value);
            if is_valid_correlation_id(trimmed) {
                trimmed.to_owned()
            } else {
                generate_correlation_id(sequence)
            }
        },
        Option::None => generate_correlation_id(sequence),
    }
}

/// A generated id produced while the sequence stepped from `before` to
/// `after`: the sequence advanced by one and the id embeds the consumed
/// number, with some timestamp.
pub open spec fn freshly_generated(
    id: Seq<char>,
    before: CorrelationSequence,
    after: CorrelationSequence,
) -> bool {
    &&& after.next == before.next + 1
    &&& exists|timestamp: nat| id == generated_id(timestamp, before.next as nat)
}

/// The characters of an optional header value.
pub open spec fn spec_header_view(header_value: Option<&str>) -> Option<Seq<char>> {
    match header_value {
        Option::Some(value) => Option::Some(value@),
        Option::None => Option::None,
    }
}

/// How a resolved id relates to the header it came from: a value valid
/// after trimming is echoed and the sequence stands still; otherwise the id
/// is freshly generated.
pub open spec fn resolved_id(
    id: Seq<char>,
    header_value: Option<Seq<char>>,
    before: CorrelationSequence,
    after: CorrelationSequence,
) -> bool {
    match header_value {
        Option::Some(value) => if valid_correlation_id(trim_spec(value)) {
            id == trim_spec(value) && after == before
        } else {
            freshly_generated(id, before, after)
        },
        Option::None => freshly_generated(id, before, after),
    }
}

} // verus!
