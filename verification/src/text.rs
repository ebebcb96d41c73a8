//! The texts that the server shows and logs: decimal numbers, reference
//! numbers and the journal of lines to be logged.

use vstd::prelude::*;
use vstd::string::*;

verus! {

/// The character of a digit below sixteen, in lower case.
pub open spec fn digit_char(d: int) -> char {
    if d < 10 {
        (48 + d) as char
    } else {
        (87 + d) as char
    }
}

/// The decimal digits of a natural number, without leading zeros.
pub open spec fn digits(n: nat) -> Seq<char>
    decreases n,
{
    if n < 10 {
        seq![digit_char(n as int)]
    } else {
        digits(n / 10).push(digit_char((n % 10) as int))
    }
}

/// The decimal text of an integer.
pub open spec fn decimal(n: int) -> Seq<char> {
    if n < 0 {
        "-"@ + digits((-n) as nat)
    } else {
        digits(n as nat)
    }
}

/// The last `count` hexadecimal digits of a natural number.
pub open spec fn hex_digits(n: nat, count: nat) -> Seq<char>
    decreases count,
{
    if count == 0 {
        Seq::empty()
    } else {
        hex_digits(n / 16, (count - 1) as nat).push(digit_char((n % 16) as int))
    }
}

/// A reference number as clients and operators see it: thirty-two hexadecimal
/// digits in groups of eight, four, four, four and twelve, joined by hyphens.
pub open spec fn hyphenated(refnum: u128) -> Seq<char> {
    let h = hex_digits(refnum as nat, 32);
    h.subrange(0, 8) + "-"@ + h.subrange(8, 12) + "-"@ + h.subrange(12, 16) + "-"@ + h.subrange(
        16,
        20,
    ) + "-"@ + h.subrange(20, 32)
}

/// The bits that mark a random (version four) reference number.
pub open spec fn is_random_refnum(refnum: u128) -> bool {
    &&& (refnum as int / 0x1000_0000_0000_0000_0000) % 16 == 4
    &&& (refnum as int / 0x4000_0000_0000_0000) % 4 == 2
}

/// A number under which a failure is logged, and which the client can quote.
#[derive(Clone, Copy, PartialEq, Eq, Structural)]
pub struct Refnum {
    pub number: u128,
}

/// What writes text to a buffer on behalf of `core::fmt`.
#[verifier::external_type_specification]
#[verifier::external_body]
pub struct ExFormatter<'a>(core::fmt::Formatter<'a>);

/// The failure of a formatter to write.
#[verifier::external_type_specification]
#[verifier::external_body]
pub struct ExFormatError(core::fmt::Error);

/// The text in the buffer that a formatter writes to.
pub uninterp spec fn formatted(f: core::fmt::Formatter<'_>) -> Seq<char>;

/// Writes a text to a formatter.
///
/// Trusted: calls `core::fmt::Formatter::write_str`. Where it succeeds, it is
/// claimed to append the text to the formatter's buffer. Nothing is claimed of
/// the buffer where it fails.
#[verifier::external_body]
fn format_text(f: &mut core::fmt::Formatter<'_>, text: &str) -> (r: Result<(), core::fmt::Error>)
    ensures
        r is Ok ==> formatted(*final(f)) == formatted(*old(f)) + text@,
{
    f.write_str(text)
}

impl core::fmt::Debug for Refnum {
    fn fmt(&self, f: &mut core::fmt::Formatter<'_>) -> (r: Result<(), core::fmt::Error>)
        ensures
            r is Ok ==> formatted(*final(f)) == formatted(*old(f)) + hyphenated(self.number),
    {
        format_text(f, refnum_text(self.number).as_str())
    }
}

/// Draws a fresh reference number.
///
/// Trusted: calls `uuid::Uuid::new_v4` and takes the number that the UUID
/// stands for. Only the version and variant bits are claimed of it, since the
/// other bits are random. The call panics where the operating system has no
/// randomness to give.
#[verifier::external_body]
pub(crate) fn draw_refnum() -> (refnum: u128)
    ensures
        is_random_refnum(refnum),
{
    uuid::Uuid::new_v4().as_u128()
}

/// The text of a reference number.
///
/// Trusted: calls `to_string` on `uuid::Uuid::from_u128`, that is the `Display`
/// of a UUID, which is claimed to be the hyphenated form in lower case.
#[verifier::external_body]
pub(crate) fn refnum_text(refnum: u128) -> (text: String)
    ensures
        text@ == hyphenated(refnum),
{
    uuid::Uuid::from_u128(refnum).to_string()
}

impl Refnum {
    /// Whether the number is one that was drawn.
    pub closed spec fn drawn(self) -> bool {
        call_ensures(draw_refnum, (), self.number)
    }

    /// Draws a fresh reference number.
    pub(crate) fn draw() -> (r: Self)
        ensures
            r.drawn(),
            is_random_refnum(r.number),
    {
        Refnum { number: draw_refnum() }
    }
}

fn digit_text(d: u64) -> (text: &'static str)
    requires
        d < 10,
    ensures
        text@ == seq![digit_char(d as int)],
{
    proof {
        reveal_strlit("0");
        reveal_strlit("1");
        reveal_strlit("2");
        reveal_strlit("3");
        reveal_strlit("4");
        reveal_strlit("5");
        reveal_strlit("6");
        reveal_strlit("7");
        reveal_strlit("8");
        reveal_strlit("9");
    }
    match d {
        0 => "0",
        1 => "1",
        2 => "2",
        3 => "3",
        4 => "4",
        5 => "5",
        6 => "6",
        7 => "7",
        8 => "8",
        _ => "9",
    }
}

fn digits_text(n: u64) -> (text: String)
    ensures
        text@ == digits(n as nat),
    decreases n,
{
    if n < 10 {
        digit_text(n).to_owned()
    } else {
        let mut text = digits_text(n / 10);
        text.append(digit_text(n % 10));
        text
    }
}

/// The decimal text of a number.
pub fn decimal_text(n: i64) -> (text: String)
    ensures
        text@ == decimal(n as int),
{
    if n >= 0 {
        digits_text(n as u64)
    } else {
        let magnitude: u64 = if n == i64::MIN {
            0x8000_0000_0000_0000
        } else {
            (-n) as u64
        };
        let mut text = "-".to_owned();
        text.append(digits_text(magnitude).as_str());
        text
    }
}

/// Whether two texts are the same.
pub fn same_text(a: &str, b: &str) -> (same: bool)
    ensures
        same == (a@ == b@),
{
    let x = a.as_bytes();
    let y = b.as_bytes();
    proof {
        vstd::utf8::encode_utf8_decode_utf8(a@);
        vstd::utf8::encode_utf8_decode_utf8(b@);
    }
    if x.len() != y.len() {
        return false;
    }
    let mut i: usize = 0;
    while i < x.len()
        invariant
            i <= x.len(),
            x.len() == y.len(),
            x@ == a.spec_bytes(),
            y@ == b.spec_bytes(),
            x@.take(i as int) == y@.take(i as int),
        decreases x.len() - i,
    {
        if x[i] != y[i] {
            return false;
        }
        assert(x@.take(i + 1) =~= x@.take(i as int).push(x@[i as int]));
        assert(y@.take(i + 1) =~= y@.take(i as int).push(y@[i as int]));
        i = i + 1;
    }
    assert(x@ =~= x@.take(i as int));
    assert(y@ =~= y@.take(i as int));
    true
}

/// Lines waiting to be written to the server's log, oldest first.
pub struct Journal {
    pub lines: Vec<String>,
}

impl View for Journal {
    type V = Seq<Seq<char>>;

    open spec fn view(&self) -> Seq<Seq<char>> {
        Seq::new(self.lines@.len(), |i: int| self.lines@[i]@)
    }
}

impl Journal {
    /// A journal without lines.
    pub fn new() -> (journal: Self)
        ensures
            journal@ == Seq::<Seq<char>>::empty(),
    {
        let journal = Journal { lines: Vec::new() };
        assert(journal@ =~= Seq::<Seq<char>>::empty());
        journal
    }

    /// Appends a line.
    pub fn record(&mut self, line: String)
        ensures
            final(self)@ == old(self)@.push(line@),
    {
        self.lines.push(line);
        assert(self@ =~= old(self)@.push(line@));
    }
}

proof fn lemma_hex_digits_len(n: nat, count: nat)
    ensures
        hex_digits(n, count).len() == count,
    decreases count,
{
    if count > 0 {
        lemma_hex_digits_len(n / 16, (count - 1) as nat);
    }
}

proof fn lemma_hex_digits_injective(a: nat, b: nat, count: nat)
    requires
        hex_digits(a, count) == hex_digits(b, count),
        a < vstd::arithmetic::power::pow(16, count),
        b < vstd::arithmetic::power::pow(16, count),
    ensures
        a == b,
    decreases count,
{
    lemma_pow_step(count);
    if count > 0 {
        let rest = (count - 1) as nat;
        let x = hex_digits(a, count);
        let y = hex_digits(b, count);
        assert(x.drop_last() =~= hex_digits(a / 16, rest));
        assert(y.drop_last() =~= hex_digits(b / 16, rest));
        assert(x.last() == digit_char((a % 16) as int));
        assert(y.last() == digit_char((b % 16) as int));
        assert(a % 16 == b % 16);
        lemma_hex_digits_injective(a / 16, b / 16, rest);
    }
}

proof fn lemma_pow_step(count: nat)
    ensures
        count == 0 ==> vstd::arithmetic::power::pow(16, count) == 1,
        count > 0 ==> vstd::arithmetic::power::pow(16, count) == 16
            * vstd::arithmetic::power::pow(16, (count - 1) as nat),
{
    reveal(vstd::arithmetic::power::pow);
}

/// The text of a reference number identifies it: two numbers with one text
/// are the same number.
pub proof fn law_refnum_text_identifies(a: u128, b: u128)
    requires
        hyphenated(a) == hyphenated(b),
    ensures
        a == b,
{
    reveal_strlit("-");
    lemma_hex_digits_len(a as nat, 32);
    lemma_hex_digits_len(b as nat, 32);
    let x = hyphenated(a);
    let y = hyphenated(b);
    let h = hex_digits(a as nat, 32);
    let g = hex_digits(b as nat, 32);
    assert forall|i: int| 0 <= i < 32 implies h[i] == g[i] by {
        let k = if i < 8 {
            i
        } else if i < 12 {
            i + 1
        } else if i < 16 {
            i + 2
        } else if i < 20 {
            i + 3
        } else {
            i + 4
        };
        assert(x[k] == h[i]);
        assert(y[k] == g[i]);
    }
    assert(h =~= g);
    assert(vstd::arithmetic::power::pow(16, 32) == 0x1_0000_0000_0000_0000_0000_0000_0000_0000) by {
        reveal_with_fuel(vstd::arithmetic::power::pow, 33);
    }
    lemma_hex_digits_injective(a as nat, b as nat, 32);
}

/// A reference number that was drawn is one that a call of `draw_refnum` gave.
pub(crate) proof fn law_drawn_number_is_random(refnum: Refnum)
    requires
        refnum.drawn(),
    ensures
        call_ensures(draw_refnum, (), refnum.number),
        is_random_refnum(refnum.number),
{
}

proof fn lemma_hex_digits_index(n: nat, count: nat, i: int)
    requires
        0 <= i < count,
    ensures
        hex_digits(n, count).len() == count,
        hex_digits(n, count)[i] == digit_char(
            (n as int / vstd::arithmetic::power::pow(16, (count - 1 - i) as nat)) % 16,
        ),
    decreases count,
{
    lemma_hex_digits_len(n, count);
    lemma_hex_digits_len(n / 16, (count - 1) as nat);
    if i == count - 1 {
        lemma_pow_step(0);
    } else {
        let rest = (count - 2 - i) as nat;
        lemma_hex_digits_index(n / 16, (count - 1) as nat, i);
        lemma_pow_step((rest + 1) as nat);
        vstd::arithmetic::power::lemma_pow_positive(16, rest);
        vstd::arithmetic::div_mod::lemma_div_denominator(
            n as int,
            16,
            vstd::arithmetic::power::pow(16, rest),
        );
    }
}

/// The text of a reference number spells the number in base sixteen, the highest
/// of the thirty-two digits first, with `a` to `f` for the digits past nine. A
/// hyphen stands behind the eighth, the twelfth, the sixteenth and the twentieth
/// digit.
pub proof fn law_refnum_text_spells_number(refnum: u128, i: int)
    requires
        0 <= i < 32,
    ensures
        ({
            let text = hyphenated(refnum);
            let place = if i < 8 {
                i
            } else if i < 12 {
                i + 1
            } else if i < 16 {
                i + 2
            } else if i < 20 {
                i + 3
            } else {
                i + 4
            };
            let digit = (refnum as int / vstd::arithmetic::power::pow(16, (31 - i) as nat)) % 16;
            &&& text.len() == 36
            &&& text[8] == '-'
            &&& text[13] == '-'
            &&& text[18] == '-'
            &&& text[23] == '-'
            &&& digit < 10 ==> text[place] as int == '0' as int + digit
            &&& digit >= 10 ==> text[place] as int == 'a' as int + digit - 10
        }),
{
    reveal_strlit("-");
    lemma_hex_digits_len(refnum as nat, 32);
    lemma_hex_digits_index(refnum as nat, 32, i);
}

/// A random reference number shows in its text: the third group starts with a
/// four, and the fourth with an eight, a nine, an `a` or a `b`.
pub proof fn law_random_refnum_shows(refnum: u128)
    ensures
        is_random_refnum(refnum) <==> {
            let text = hyphenated(refnum);
            &&& text[14] == '4'
            &&& text[19] == '8' || text[19] == '9' || text[19] == 'a' || text[19] == 'b'
        },
{
    law_refnum_text_spells_number(refnum, 12);
    law_refnum_text_spells_number(refnum, 16);
    assert(vstd::arithmetic::power::pow(16, 19) == 0x1000_0000_0000_0000_0000) by {
        reveal_with_fuel(vstd::arithmetic::power::pow, 20);
    }
    assert(vstd::arithmetic::power::pow(16, 15) == 0x1000_0000_0000_0000) by {
        reveal_with_fuel(vstd::arithmetic::power::pow, 16);
    }
    let n = refnum as int;
    vstd::arithmetic::div_mod::lemma_div_denominator(n, 0x1000_0000_0000_0000, 4);
    let high = n / 0x1000_0000_0000_0000;
    assert((high / 4) % 4 == 2 <==> 8 <= high % 16 < 12);
}

/// The text of a reference number has thirty-six characters.
pub proof fn law_refnum_text_length(refnum: u128)
    ensures
        hyphenated(refnum).len() == 36,
{
    reveal_strlit("-");
    lemma_hex_digits_len(refnum as nat, 32);
}

proof fn lemma_digits_shape(n: nat)
    ensures
        digits(n).len() >= 1,
        forall|i: int| 0 <= i < digits(n).len() ==> '0' <= #[trigger] digits(n)[i] <= '9',
    decreases n,
{
    if n >= 10 {
        lemma_digits_shape(n / 10);
    }
}

proof fn lemma_digits_injective(a: nat, b: nat)
    requires
        digits(a) == digits(b),
    ensures
        a == b,
    decreases a,
{
    lemma_digits_shape(a / 10);
    lemma_digits_shape(b / 10);
    let x = digits(a);
    let y = digits(b);
    assert(x.last() == digit_char((a % 10) as int));
    assert(y.last() == digit_char((b % 10) as int));
    assert(a % 10 == b % 10);
    if a >= 10 && b >= 10 {
        assert(x.drop_last() =~= digits(a / 10));
        assert(y.drop_last() =~= digits(b / 10));
        lemma_digits_injective(a / 10, b / 10);
    }
}

/// The decimal text of an integer has a character, and holds digits and the
/// sign alone.
pub proof fn law_decimal_shape(n: int)
    ensures
        decimal(n).len() >= 1,
        forall|i: int|
            0 <= i < decimal(n).len() ==> '0' <= #[trigger] decimal(n)[i] <= '9' || decimal(n)[i]
                == '-',
{
    reveal_strlit("-");
    if n < 0 {
        lemma_digits_shape((-n) as nat);
    } else {
        lemma_digits_shape(n as nat);
    }
}

/// The decimal text of an integer is written digit by digit: a number below ten
/// is its digit, a further digit stands behind the text of the number before it,
/// and a negative number is its magnitude behind a minus sign.
pub proof fn law_decimal_digit_by_digit(n: int, d: int)
    requires
        0 < n,
        0 <= d < 10,
    ensures
        decimal(d) == seq![('0' as int + d) as char],
        decimal(10 * n + d) == decimal(n).push(('0' as int + d) as char),
        decimal(-n) == seq!['-'] + decimal(n),
{
    reveal_strlit("-");
    assert("-"@ =~= seq!['-']);
    assert((10 * n + d) as nat / 10 == n as nat);
    assert((10 * n + d) as nat % 10 == d as nat);
}

/// A journal shows its lines, each in its place.
pub proof fn law_journal_shows_lines(journal: Journal)
    ensures
        journal@.len() == journal.lines@.len(),
        forall|i: int| 0 <= i < journal@.len() ==> #[trigger] journal@[i] == journal.lines@[i]@,
{
}

/// The decimal text of an integer identifies it.
pub proof fn law_decimal_identifies(a: int, b: int)
    requires
        decimal(a) == decimal(b),
    ensures
        a == b,
{
    reveal_strlit("-");
    let x = if a < 0 {
        (-a) as nat
    } else {
        a as nat
    };
    let y = if b < 0 {
        (-b) as nat
    } else {
        b as nat
    };
    lemma_digits_shape(x);
    lemma_digits_shape(y);
    if a < 0 {
        assert(decimal(a)[0] == '-');
        assert(decimal(a).skip(1) =~= digits(x));
    } else {
        assert(decimal(a)[0] == digits(x)[0]);
    }
    if b < 0 {
        assert(decimal(b)[0] == '-');
        assert(decimal(b).skip(1) =~= digits(y));
    } else {
        assert(decimal(b)[0] == digits(y)[0]);
    }
    lemma_digits_injective(x, y);
}

} // verus!
