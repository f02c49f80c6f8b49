//! Decimal text for the numbers of an inventory: sizes, percentages, dates.
use vstd::prelude::*;

use crate::entry::Timestamp;

verus! {

/// The decimal digit for `d < 10`.
pub open spec fn digit_char(d: nat) -> char {
    seq!['0', '1', '2', '3', '4', '5', '6', '7', '8', '9'][d as int]
}

/// The decimal writing of `n`, without leading zeros.
pub open spec fn decimal(n: nat) -> Seq<char>
    decreases n,
{
    if n < 10 {
        seq![digit_char(n)]
    } else {
        decimal(n / 10).push(digit_char(n % 10))
    }
}

/// The decimal writing of `n`, with zeros in front up to `width` characters.
pub open spec fn zero_padded(n: nat, width: nat) -> Seq<char> {
    let d = decimal(n);
    if d.len() >= width {
        d
    } else {
        Seq::new((width - d.len()) as nat, |i: int| '0') + d
    }
}

/// A ratio in hundredths of a percent written as a percentage with two
/// decimals: 1234 is "12.34".
pub open spec fn percent_text(hundredths: nat) -> Seq<char> {
    decimal(hundredths / 100) + seq!['.'] + zero_padded(hundredths % 100, 2)
}

/// A timestamp written as `YYYY-MM-DD HH:MM:SS`.
pub open spec fn timestamp_text(t: Timestamp) -> Seq<char> {
    zero_padded(t.year as nat, 4) + seq!['-'] + zero_padded(t.month as nat, 2) + seq!['-']
        + zero_padded(t.day as nat, 2) + seq![' '] + zero_padded(t.hour as nat, 2) + seq![':']
        + zero_padded(t.minute as nat, 2) + seq![':'] + zero_padded(t.second as nat, 2)
}

fn digit_text(d: u128) -> (r: &'static str)
    requires
        d < 10,
    ensures
        r@ == seq![digit_char(d as nat)],
{
    proof {
        reveal_strlit("0");
        reveal_strlit("1");
        reveal_strlit("2");
        reveal_strlit("3");
        reveal_strlit("4");
        reveal_strlit("5");
        reveal_strlit("6");
        reveal_strlit("7");
        reveal_strlit("8");
        reveal_strlit("9");
    }
    let r = match d {
        0 => "0",
        1 => "1",
        2 => "2",
        3 => "3",
        4 => "4",
        5 => "5",
        6 => "6",
        7 => "7",
        8 => "8",
        _ => "9",
    };
    assert(r@ =~= seq![digit_char(d as nat)]);
    r
}

/// `n` in decimal.
pub fn decimal_text(n: u128) -> (r: String)
    ensures
        r@ == decimal(n as nat),
    decreases n,
{
    if n < 10 {
        digit_text(n).to_string()
    } else {
        let mut r = decimal_text(n / 10);
        r.append(digit_text(n % 10));
        r
    }
}

/// `n` in decimal, with zeros in front up to `width` characters.
pub fn zero_padded_text(n: u128, width: usize) -> (r: String)
    ensures
        r@ == zero_padded(n as nat, width as nat),
{
    let d = decimal_text(n);
    let len = d.as_str().unicode_len();
    if len >= width {
        return d;
    }
    let mut r = String::new();
    let mut i: usize = 0;
    while i < width - len
        invariant
            len < width,
            i <= width - len,
            r@ == Seq::new(i as nat, |j: int| '0'),
        decreases width - len - i,
    {
        r.append("0");
        proof {
            reveal_strlit("0");
        }
        assert(r@ =~= Seq::new((i + 1) as nat, |j: int| '0'));
        i = i + 1;
    }
    r.append(d.as_str());
    r
}

/// The text that `bytesize` gives for a number of bytes in binary units.
pub uninterp spec fn human_size(bytes: u64) -> Seq<char>;

/// Relies on `bytesize::ByteSize::to_string_as(true)`: the size with one
/// decimal and a binary unit ("1.5 kiB", "2.0 MiB"), a text that depends on the number
/// alone; under 1024 bytes, the number followed by " B".
#[verifier::external_body]
fn human_size_text(bytes: u64) -> (r: String)
    ensures
        r@ == human_size(bytes),
        bytes < 1024 ==> r@ == decimal(bytes as nat) + " B"@,
{
    bytesize::ByteSize(bytes).to_string_as(true)
}

/// A size in bytes as text: with a binary unit where `human` asks for it and
/// the size fits in 64 bits, in plain decimal otherwise.
pub fn size_text(bytes: u128, human: bool) -> (r: String)
    ensures
        human && bytes <= u64::MAX ==> r@ == human_size(bytes as u64),
        !(human && bytes <= u64::MAX) ==> r@ == decimal(bytes as nat),
{
    if human && bytes <= 0xFFFF_FFFF_FFFF_FFFFu128 {
        human_size_text(bytes as u64)
    } else {
        decimal_text(bytes)
    }
}

/// A ratio in hundredths of a percent as a percentage with two decimals.
pub fn percent(hundredths: u32) -> (r: String)
    ensures
        r@ == percent_text(hundredths as nat),
{
    let mut r = decimal_text((hundredths / 100) as u128);
    r.append(".");
    proof {
        reveal_strlit(".");
    }
    let frac = zero_padded_text((hundredths % 100) as u128, 2);
    r.append(frac.as_str());
    r
}

impl Timestamp {
    /// This timestamp as `YYYY-MM-DD HH:MM:SS`.
    pub fn render(&self) -> (r: String)
        ensures
            r@ == timestamp_text(*self),
    {
        proof {
            reveal_strlit("-");
            reveal_strlit(" ");
            reveal_strlit(":");
        }
        let mut r = zero_padded_text(self.year as u128, 4);
        r.append("-");
        r.append(zero_padded_text(self.month as u128, 2).as_str());
        r.append("-");
        r.append(zero_padded_text(self.day as u128, 2).as_str());
        r.append(" ");
        r.append(zero_padded_text(self.hour as u128, 2).as_str());
        r.append(":");
        r.append(zero_padded_text(self.minute as u128, 2).as_str());
        r.append(":");
        r.append(zero_padded_text(self.second as u128, 2).as_str());
        r
    }
}

} // verus!
