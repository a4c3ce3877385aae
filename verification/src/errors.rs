//! The failures the library surfaces, and the verified construction of their
//! textual forms.
//!
//! Every failure is an ordinary result value handed back to the caller;
//! none aborts the process.  The messages are built here by verified
//! concatenation; the decimal rendering of an index is verified as well.
//! Only the textual form of a vertex — the fixed six-decimal rendering of
//! its two coordinates — cannot be produced inside the library, since it is
//! floating-point formatting; the degenerate-segment message therefore takes
//! the two rendered vertices as arguments.

use vstd::prelude::*;

use crate::geometries::vertex::Vertex;
use vstd::string::StringExecFns;

verus! {

/// A failure of the geometric model or of the ellipsoidal solver.
#[derive(Clone, Copy, Debug)]
pub enum SpatialError {
    /// A line was asked to join a vertex to itself: its two endpoints are
    /// equal under exact value equality.  The payload carries both offending
    /// vertices.
    DegenerateSegment { start: Vertex, end: Vertex },
    /// A path's line at `index` does not start where the line at
    /// `index - 1` ends.  `index` is at least one.
    DisconnectedPath { index: usize },
    /// Vincenty's iteration exhausted its cap without converging.
    VincentyDidNotConverge,
}

/// The decimal digit character of a value below ten.
pub open spec fn spec_digit_char(d: nat) -> char {
    if d == 0 {
        '0'
    } else if d == 1 {
        '1'
    } else if d == 2 {
        '2'
    } else if d == 3 {
        '3'
    } else if d == 4 {
        '4'
    } else if d == 5 {
        '5'
    } else if d == 6 {
        '6'
    } else if d == 7 {
        '7'
    } else if d == 8 {
        '8'
    } else {
        '9'
    }
}

/// The decimal rendering of a natural number, most significant digit first,
/// with no sign and no leading zero except for the number zero itself.
pub open spec fn spec_decimal(n: nat) -> Seq<char>
    decreases n,
{
    if n < 10 {
        seq![spec_digit_char(n)]
    } else {
        spec_decimal(n / 10) + seq![spec_digit_char(n % 10)]
    }
}

/// The numeric value of a decimal digit character.
pub open spec fn spec_digit_value(c: char) -> nat {
    if c == '0' {
        0
    } else if c == '1' {
        1
    } else if c == '2' {
        2
    } else if c == '3' {
        3
    } else if c == '4' {
        4
    } else if c == '5' {
        5
    } else if c == '6' {
        6
    } else if c == '7' {
        7
    } else if c == '8' {
        8
    } else {
        9
    }
}

/// The value a sequence of digit characters denotes, most significant
/// digit first.
pub open spec fn spec_digits_value(s: Seq<char>) -> nat
    decreases s.len(),
{
    if s.len() == 0 {
        0
    } else {
        spec_digits_value(s.drop_last()) * 10 + spec_digit_value(s.last())
    }
}

/// The decimal rendering round-trips: the digits `spec_decimal` produces
/// denote exactly the number they were rendered from.
pub proof fn lemma_decimal_round_trip(n: nat)
    ensures
        spec_digits_value(spec_decimal(n)) == n,
    decreases n,
{
    if n < 10 {
        let s = spec_decimal(n);
        assert(s.drop_last() =~= Seq::<char>::empty());
        assert(spec_digits_value(s.drop_last()) == 0);
        assert(spec_digit_value(spec_digit_char(n)) == n);
    } else {
        lemma_decimal_round_trip(n / 10);
        assert(spec_decimal(n).drop_last() =~= spec_decimal(n / 10));
        assert(spec_decimal(n).last() == spec_digit_char(n % 10));
        assert(spec_digit_value(spec_digit_char(n % 10)) == n % 10);
        assert((n / 10) * 10 + n % 10 == n) by (nonlinear_arith);
    }
}

/// The one-character string of a decimal digit.
fn digit_str(d: u64) -> (r: &'static str)
    requires
        d < 10,
    ensures
        r@ == seq![spec_digit_char(d as nat)],
{
    let r: &'static str = if d == 0 {
        "0"
    } else if d == 1 {
        "1"
    } else if d == 2 {
        "2"
    } else if d == 3 {
        "3"
    } else if d == 4 {
        "4"
    } else if d == 5 {
        "5"
    } else if d == 6 {
        "6"
    } else if d == 7 {
        "7"
    } else if d == 8 {
        "8"
    } else {
        "9"
    };
    proof {
        reveal_strlit("0");
        reveal_strlit("1");
        reveal_strlit("2");
        reveal_strlit("3");
        reveal_strlit("4");
        reveal_strlit("5");
        reveal_strlit("6");
        reveal_strlit("7");
        reveal_strlit("8");
        reveal_strlit("9");
        assert(r@ =~= seq![spec_digit_char(d as nat)]);
    }
    r
}

/// Renders a number in decimal, exactly as `spec_decimal` states it.
pub fn decimal_string(n: u64) -> (r: String)
    ensures
        r@ == spec_decimal(n as nat),
    decreases n,
{
    if n < 10 {
        String::from_str(digit_str(n))
    } else {
        let mut s = decimal_string(n / 10);
        s.append(digit_str(n % 10));
        s
    }
}

/// The textual form of `DegenerateSegment`, given the rendered forms of the
/// two offending vertices.
pub open spec fn spec_degenerate_segment_message(start_text: Seq<char>, end_text: Seq<char>) -> Seq<
    char,
> {
    "Os vértices de entrada e saída são iguais: Entrada: "@ + start_text + "; Saída: "@ + end_text
}

/// Builds the `DegenerateSegment` message around the rendered forms of the
/// two offending vertices, which the caller supplies because coordinate
/// rendering is floating-point formatting and stays outside the library.
pub fn degenerate_segment_message(start_text: &str, end_text: &str) -> (r: String)
    ensures
        r@ == spec_degenerate_segment_message(start_text@, end_text@),
{
    let mut s = String::from_str("Os vértices de entrada e saída são iguais: Entrada: ");
    s.append(start_text);
    s.append("; Saída: ");
    s.append(end_text);
    s
}

/// The textual form of `DisconnectedPath { index }`: it names the two
/// offending line indices, `index - 1` and `index`.
pub open spec fn spec_disconnected_path_message(index: nat) -> Seq<char>
    recommends
        index >= 1,
{
    "Caminho inconsistente: linha "@ + spec_decimal((index - 1) as nat)
        + " não se conecta com a linha "@ + spec_decimal(index)
}

/// Builds the `DisconnectedPath` message for the line at `index`, which
/// does not connect to the line before it.
pub fn disconnected_path_message(index: usize) -> (r: String)
    requires
        index >= 1,
    ensures
        r@ == spec_disconnected_path_message(index as nat),
{
    let mut s = String::from_str("Caminho inconsistente: linha ");
    s.append(decimal_string((index - 1) as u64).as_str());
    s.append(" não se conecta com a linha ");
    s.append(decimal_string(index as u64).as_str());
    s
}

/// The textual form of `VincentyDidNotConverge`.
pub open spec fn spec_vincenty_did_not_converge_message() -> Seq<char> {
    "Convergência não atingida"@
}

/// Builds the `VincentyDidNotConverge` message.
pub fn vincenty_did_not_converge_message() -> (r: String)
    ensures
        r@ == spec_vincenty_did_not_converge_message(),
{
    String::from_str("Convergência não atingida")
}

} // verus!
