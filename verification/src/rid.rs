//! Record identifier codec.
//!
//! A record identifier names one stored record as a bucket number and a
//! position inside that bucket. Its canonical text form is
//! `#<bucket>:<position>`, with both halves signed decimal integers.

use vstd::prelude::*;

verus! {

/// Identifier of one stored record. The conventional "null" identifier is
/// `#-1:-1`.
#[derive(Debug, PartialEq, Eq, Structural, Clone, Copy)]
pub struct RecordID {
    pub bucket_id: i32,
    pub record_position: i64,
}

/// Why a record identifier string was rejected.
#[derive(Debug, PartialEq, Eq, Structural, Clone, Copy)]
pub enum RecordIDError {
    /// The text does not have the shape `#<int>:<int>`.
    InvalidFormat,
    /// A numeric half holds a character that is no decimal digit (a lone
    /// sign counts as such).
    InvalidDigit,
    /// A numeric half is below the range of its integer type.
    TooSmall,
    /// A numeric half is above the range of its integer type.
    TooLarge,
}

impl RecordIDError {
    /// The description of this rejection.
    pub open spec fn message_spec(self) -> Seq<char> {
        match self {
            RecordIDError::InvalidFormat => "Invalid RecordID, expected format #<bucket-identifier>:<record-position>"@,
            RecordIDError::InvalidDigit => "invalid digit found in string"@,
            RecordIDError::TooSmall => "number too small to fit in target type"@,
            RecordIDError::TooLarge => "number too large to fit in target type"@,
        }
    }

    /// A human-readable description of the rejection.
    pub fn message(&self) -> (r: String)
        ensures
            r@ == self.message_spec(),
    {
        match self {
            RecordIDError::InvalidFormat => String::from_str(
                "Invalid RecordID, expected format #<bucket-identifier>:<record-position>",
            ),
            RecordIDError::InvalidDigit => String::from_str("invalid digit found in string"),
            RecordIDError::TooSmall => String::from_str(
                "number too small to fit in target type",
            ),
            RecordIDError::TooLarge => String::from_str(
                "number too large to fit in target type",
            ),
        }
    }
}

/// The decimal digit `d` as a character.
pub open spec fn digit_char(d: int) -> char {
    if d == 0 {
        '0'
    } else if d == 1 {
        '1'
    } else if d == 2 {
        '2'
    } else if d == 3 {
        '3'
    } else if d == 4 {
        '4'
    } else if d == 5 {
        '5'
    } else if d == 6 {
        '6'
    } else if d == 7 {
        '7'
    } else if d == 8 {
        '8'
    } else {
        '9'
    }
}

/// Whether `c` is a decimal digit.
pub open spec fn is_digit(c: char) -> bool {
    '0' as u32 <= c as u32 <= '9' as u32
}

/// The value of the digit `c`.
pub open spec fn digit_val(c: char) -> int {
    c as u32 - '0' as u32
}

/// The canonical decimal digits of `n`, most significant first.
pub open spec fn dec_rep(n: nat) -> Seq<char>
    decreases n,
{
    if n < 10 {
        seq![digit_char(n as int)]
    } else {
        dec_rep(n / 10).push(digit_char((n % 10) as int))
    }
}

/// The canonical signed decimal text of `n`.
pub open spec fn int_rep(n: int) -> Seq<char> {
    if n < 0 {
        seq!['-'] + dec_rep((-n) as nat)
    } else {
        dec_rep(n as nat)
    }
}

/// The canonical text of the identifier `(bucket, position)`.
pub open spec fn rid_text(bucket: int, position: int) -> Seq<char> {
    seq!['#'] + int_rep(bucket) + seq![':'] + int_rep(position)
}

/// Whether every character of `s` is a decimal digit.
pub open spec fn all_digits(s: Seq<char>) -> bool {
    forall|i: int| 0 <= i < s.len() ==> is_digit(s[i])
}

/// The value of the digit string `s`, most significant digit first.
pub open spec fn digits_val(s: Seq<char>) -> int
    decreases s.len(),
{
    if s.len() == 0 {
        0
    } else {
        digits_val(s.drop_last()) * 10 + digit_val(s.last())
    }
}

/// What parsing `s` as a signed decimal integer bounded to `[lo, hi]`
/// yields: an optional leading sign, then one or more digits, and the value
/// must lie in range. A lone sign or any non-digit character is rejected.
pub open spec fn parse_signed(s: Seq<char>, lo: int, hi: int) -> Result<int, RecordIDError> {
    let neg = s.len() > 0 && s[0] == '-';
    let digits = if s.len() > 0 && (s[0] == '-' || s[0] == '+') {
        s.subrange(1, s.len() as int)
    } else {
        s
    };
    if digits.len() == 0 || !all_digits(digits) {
        Err(RecordIDError::InvalidDigit)
    } else {
        let v = if neg {
            -digits_val(digits)
        } else {
            digits_val(digits)
        };
        if v > hi {
            Err(RecordIDError::TooLarge)
        } else if v < lo {
            Err(RecordIDError::TooSmall)
        } else {
            Ok(v)
        }
    }
}

/// Whether `c` is one of the two delimiter characters of the text form.
pub open spec fn rid_delim(c: char) -> bool {
    c == '#' || c == ':'
}

/// Whether the one separating colon of a well-shaped identifier text stands
/// at index `i`: both halves around it are nonempty and hold no further
/// delimiter.
pub open spec fn colon_at(s: Seq<char>, i: int) -> bool {
    &&& 2 <= i <= s.len() - 2
    &&& s[i] == ':'
    &&& forall|j: int| 1 <= j < s.len() && j != i ==> !rid_delim(s[j])
}

/// Whether `s` has the shape `#<half>:<half>` with nonempty halves.
pub open spec fn rid_shape(s: Seq<char>) -> bool {
    &&& s.len() >= 4
    &&& s[0] == '#'
    &&& exists|i: int| colon_at(s, i)
}

/// The index of the separating colon of a well-shaped text.
pub open spec fn colon_idx(s: Seq<char>) -> int {
    choose|i: int| colon_at(s, i)
}

/// What decoding an identifier text yields: the two halves of a well-shaped
/// text are parsed as decimal integers bounded to the ranges of the two
/// fields, bucket first; any other shape is a format error.
pub open spec fn rid_decode_spec(s: Seq<char>) -> Result<(int, int), RecordIDError> {
    if !rid_shape(s) {
        Err(RecordIDError::InvalidFormat)
    } else {
        let i = colon_idx(s);
        match parse_signed(s.subrange(1, i), i32::MIN as int, i32::MAX as int) {
            Ok(b) => match parse_signed(
                s.subrange(i + 1, s.len() as int),
                i64::MIN as int,
                i64::MAX as int,
            ) {
                Ok(p) => Ok((b, p)),
                Err(e) => Err(e),
            },
            Err(e) => Err(e),
        }
    }
}

proof fn lemma_colon_at_unique(s: Seq<char>, i: int, j: int)
    requires
        colon_at(s, i),
        colon_at(s, j),
    ensures
        i == j,
{
    if i != j {
        assert(s[j] == ':');
        assert(!rid_delim(s[j]));
    }
}

/// Every character of a canonical digit string is a digit, the string is
/// nonempty, and its value is the encoded number.
pub proof fn lemma_dec_rep(n: nat)
    ensures
        dec_rep(n).len() >= 1,
        all_digits(dec_rep(n)),
        digits_val(dec_rep(n)) == n,
    decreases n,
{
    if n < 10 {
        let s = dec_rep(n);
        assert(is_digit(digit_char(n as int)));
        assert(s.drop_last() =~= Seq::<char>::empty());
        assert(digits_val(s.drop_last()) == 0);
        assert(digit_val(digit_char(n as int)) == n);
        assert(digits_val(s) == digits_val(s.drop_last()) * 10 + digit_val(s.last()));
    } else {
        lemma_dec_rep(n / 10);
        let s = dec_rep(n);
        assert(s.drop_last() =~= dec_rep(n / 10));
        assert(digits_val(s.drop_last()) == n / 10);
        assert(s.last() == digit_char((n % 10) as int));
        assert(digit_val(digit_char((n % 10) as int)) == n % 10);
        assert(digits_val(s) == digits_val(s.drop_last()) * 10 + digit_val(s.last()));
        vstd::arithmetic::div_mod::lemma_fundamental_div_mod(n as int, 10);
        assert(digits_val(s) == n);
        assert(all_digits(s)) by {
            assert forall|i: int| 0 <= i < s.len() implies is_digit(s[i]) by {
                if i < s.len() - 1 {
                    assert(s[i] == dec_rep(n / 10)[i]);
                }
            }
        }
    }
}

fn digit_str(d: u64) -> (r: &'static str)
    requires
        d < 10,
    ensures
        r@ =~= seq![digit_char(d as int)],
{
    proof {
        reveal_strlit("0");
        reveal_strlit("1");
        reveal_strlit("2");
        reveal_strlit("3");
        reveal_strlit("4");
        reveal_strlit("5");
        reveal_strlit("6");
        reveal_strlit("7");
        reveal_strlit("8");
        reveal_strlit("9");
    }
    match d {
        0 => "0",
        1 => "1",
        2 => "2",
        3 => "3",
        4 => "4",
        5 => "5",
        6 => "6",
        7 => "7",
        8 => "8",
        _ => "9",
    }
}

fn u64_dec_str(n: u64) -> (r: String)
    ensures
        r@ == dec_rep(n as nat),
    decreases n,
{
    if n < 10 {
        String::from_str(digit_str(n))
    } else {
        let prefix = u64_dec_str(n / 10);
        prefix.concat(digit_str(n % 10))
    }
}

fn i64_dec_str(n: i64) -> (r: String)
    ensures
        r@ == int_rep(n as int),
{
    if n >= 0 {
        u64_dec_str(n as u64)
    } else {
        let magnitude: u64 = if n == i64::MIN {
            9223372036854775808u64
        } else {
            (-n) as u64
        };
        proof {
            reveal_strlit("-");
        }
        let r = String::from_str("-").concat(u64_dec_str(magnitude).as_str());
        proof {
            assert(r@ =~= seq!['-'] + dec_rep((-(n as int)) as nat));
        }
        r
    }
}

/// The canonical text of an integer holds no delimiter character, and
/// parsing it within any range that holds the integer gives it back.
proof fn lemma_int_rep_parse(n: int, lo: int, hi: int)
    requires
        lo <= n <= hi,
    ensures
        int_rep(n).len() >= 1,
        forall|k: int| 0 <= k < int_rep(n).len() ==> !rid_delim(int_rep(n)[k]),
        parse_signed(int_rep(n), lo, hi) == Ok::<int, RecordIDError>(n),
{
    let s = int_rep(n);
    if n >= 0 {
        lemma_dec_rep(n as nat);
        assert(is_digit(s[0]));
        assert(s[0] != '-' && s[0] != '+');
        assert(forall|k: int| 0 <= k < s.len() ==> is_digit(s[k]) && !rid_delim(s[k]));
    } else {
        lemma_dec_rep((-n) as nat);
        let d = dec_rep((-n) as nat);
        assert(s[0] == '-');
        let digits = s.subrange(1, s.len() as int);
        assert(digits =~= d);
        assert(forall|k: int| 0 <= k < s.len() ==> !rid_delim(s[k])) by {
            assert(forall|k: int| 1 <= k < s.len() ==> s[k] == d[k - 1] && is_digit(d[k - 1]));
        }
        assert(parse_signed(s, lo, hi) == Ok::<int, RecordIDError>(n));
    }
}

/// Encode then decode gives the identifier back: the canonical text of any
/// representable `(bucket, position)` pair decodes to exactly that pair.
pub proof fn lemma_rid_round_trip(bucket: int, position: int)
    requires
        i32::MIN <= bucket <= i32::MAX,
        i64::MIN <= position <= i64::MAX,
    ensures
        rid_decode_spec(rid_text(bucket, position)) == Ok::<(int, int), RecordIDError>(
            (bucket, position),
        ),
{
    let s = rid_text(bucket, position);
    let bi = int_rep(bucket);
    let pi = int_rep(position);
    lemma_int_rep_parse(bucket, i32::MIN as int, i32::MAX as int);
    lemma_int_rep_parse(position, i64::MIN as int, i64::MAX as int);
    let i = 1 + bi.len() as int;
    assert(s[0] == '#');
    assert(s[i] == ':');
    assert(colon_at(s, i)) by {
        assert forall|j: int| 1 <= j < s.len() && j != i implies !rid_delim(s[j]) by {
            if j < i {
                assert(s[j] == bi[j - 1]);
            } else {
                assert(s[j] == pi[j - i - 1]);
            }
        }
    }
    assert(rid_shape(s));
    lemma_colon_at_unique(s, colon_idx(s), i);
    assert(s.subrange(1, i) =~= bi);
    assert(s.subrange(i + 1, s.len() as int) =~= pi);
}

fn digit_of(c: char) -> (r: Option<u64>)
    ensures
        match r {
            Some(d) => is_digit(c) && d == digit_val(c) && d <= 9,
            None => !is_digit(c),
        },
{
    let u = c as u32;
    if 48 <= u && u <= 57 {
        Some((u - 48) as u64)
    } else {
        None
    }
}

/// `mag <= (cap - d) / 10` decides exactly whether one more digit still fits
/// under `cap`.
proof fn lemma_next_digit_bound(mag: int, d: int, cap: int)
    requires
        0 <= mag,
        0 <= d <= 9,
        d <= cap,
    ensures
        mag <= (cap - d) / 10 <==> mag * 10 + d <= cap,
{
    let x = cap - d;
    vstd::arithmetic::div_mod::lemma_fundamental_div_mod(x, 10);
}

/// Parse one numeric half as a signed decimal integer whose value must lie
/// in `[-neg_cap, pos_cap]`. On success the result is the sign and the
/// magnitude.
fn parse_half(s: &str, pos_cap: u64, neg_cap: u64) -> (r: Result<(bool, u64), RecordIDError>)
    requires
        9 <= pos_cap,
        9 <= neg_cap,
    ensures
        match r {
            Ok(p) => {
                &&& parse_signed(s@, -(neg_cap as int), pos_cap as int) == Ok::<int, RecordIDError>(
                    if p.0 {
                        -(p.1 as int)
                    } else {
                        p.1 as int
                    },
                )
                &&& p.1 <= if p.0 {
                    neg_cap
                } else {
                    pos_cap
                }
            },
            Err(e) => parse_signed(s@, -(neg_cap as int), pos_cap as int) == Err::<
                int,
                RecordIDError,
            >(e),
        },
{
    let ghost sv = s@;
    let n = s.unicode_len();
    if n == 0 {
        return Err(RecordIDError::InvalidDigit);
    }
    let c0 = s.get_char(0);
    let neg = c0 == '-';
    let start: usize = if c0 == '-' || c0 == '+' {
        1
    } else {
        0
    };
    let ghost digits = if start == 1 {
        sv.subrange(1, sv.len() as int)
    } else {
        sv
    };
    if n == start {
        assert(digits.len() == 0);
        return Err(RecordIDError::InvalidDigit);
    }
    let cap: u64 = if neg {
        neg_cap
    } else {
        pos_cap
    };
    let mut mag: u64 = 0;
    let mut over = false;
    let mut j = start;
    while j < n
        invariant
            sv == s@,
            start <= j <= n,
            n == sv.len(),
            start == 0 || start == 1,
            neg == (sv[0] == '-'),
            (start == 1) == (sv[0] == '-' || sv[0] == '+'),
            start == 1 ==> digits == sv.subrange(1, sv.len() as int),
            start == 0 ==> digits == sv,
            cap == if neg {
                neg_cap
            } else {
                pos_cap
            },
            digits.len() == n - start,
            forall|k: int| 0 <= k < digits.len() ==> digits[k] == sv[k + start],
            all_digits(digits.subrange(0, j - start)),
            over <==> digits_val(digits.subrange(0, j - start)) > cap,
            !over ==> mag == digits_val(digits.subrange(0, j - start)),
            mag <= cap,
            9 <= cap,
        decreases n - j,
    {
        let c = s.get_char(j);
        match digit_of(c) {
            None => {
                proof {
                    assert(digits[j - start] == sv[j as int]);
                    assert(!all_digits(digits));
                }
                return Err(RecordIDError::InvalidDigit);
            },
            Some(d) => {
                proof {
                    let pre = digits.subrange(0, j - start);
                    let ext = digits.subrange(0, j - start + 1);
                    assert(ext.drop_last() =~= pre);
                    assert(ext.last() == digits[j - start]);
                    assert(digits[j - start] == sv[j as int]);
                    assert(digits_val(ext) == digits_val(pre) * 10 + digit_val(sv[j as int]));
                    assert(all_digits(ext)) by {
                        assert(forall|k: int|
                            0 <= k < ext.len() - 1 ==> ext[k] == pre[k] && is_digit(pre[k]));
                    }
                }
                if !over {
                    proof {
                        lemma_next_digit_bound(mag as int, d as int, cap as int);
                    }
                    if mag <= (cap - d) / 10 {
                        mag = mag * 10 + d;
                    } else {
                        over = true;
                    }
                } else {
                    proof {
                        let pre = digits.subrange(0, j - start);
                        assert(digits_val(pre) >= cap + 1);
                        assert(digits_val(pre) * 10 >= (cap + 1) * 10);
                    }
                }
                j += 1;
            },
        }
    }
    proof {
        assert(digits.subrange(0, n - start) =~= digits);
    }
    if over {
        if neg {
            return Err(RecordIDError::TooSmall);
        } else {
            return Err(RecordIDError::TooLarge);
        }
    }
    Ok((neg, mag))
}

impl RecordID {
    /// A record identifier from its two halves.
    pub fn new(bucket_id: i32, record_position: i64) -> (r: Self)
        ensures
            r.bucket_id == bucket_id,
            r.record_position == record_position,
    {
        Self { bucket_id, record_position }
    }

    /// Decode the text form `#<bucket>:<position>`. Any other shape is a
    /// format error; a half outside its field's range is a numeric error.
    pub fn decode(text: &str) -> (r: Result<RecordID, RecordIDError>)
        ensures
            match r {
                Ok(id) => rid_decode_spec(text@) == Ok::<(int, int), RecordIDError>(
                    (id.bucket_id as int, id.record_position as int),
                ),
                Err(e) => rid_decode_spec(text@) == Err::<(int, int), RecordIDError>(e),
            },
    {
        let ghost sv = text@;
        let n = text.unicode_len();
        if n == 0 {
            return Err(RecordIDError::InvalidFormat);
        }
        if text.get_char(0) != '#' {
            proof {
                assert(!rid_shape(sv));
            }
            return Err(RecordIDError::InvalidFormat);
        }
        let mut colon_found = false;
        let mut ci: usize = 0;
        let mut j: usize = 1;
        while j < n
            invariant
                sv == text@,
                1 <= j <= n,
                n == sv.len(),
                sv[0] == '#',
                forall|k: int| 1 <= k < j ==> sv[k] != '#',
                colon_found ==> 1 <= ci < j && sv[ci as int] == ':',
                colon_found ==> forall|k: int| 1 <= k < j && k != ci ==> sv[k] != ':',
                !colon_found ==> forall|k: int| 1 <= k < j ==> sv[k] != ':',
            decreases n - j,
        {
            let c = text.get_char(j);
            if c == '#' {
                proof {
                    assert forall|i: int| !colon_at(sv, i) by {
                        if colon_at(sv, i) {
                            assert(sv[i] == ':');
                            assert(i != j);
                            assert(!rid_delim(sv[j as int]));
                        }
                    }
                }
                return Err(RecordIDError::InvalidFormat);
            }
            if c == ':' {
                if colon_found {
                    proof {
                        assert forall|i: int| !colon_at(sv, i) by {
                            if colon_at(sv, i) {
                                if i != ci {
                                    assert(!rid_delim(sv[ci as int]));
                                } else {
                                    assert(!rid_delim(sv[j as int]));
                                }
                            }
                        }
                    }
                    return Err(RecordIDError::InvalidFormat);
                }
                colon_found = true;
                ci = j;
            }
            j += 1;
        }
        if !colon_found {
            proof {
                assert forall|i: int| !colon_at(sv, i) by {
                    if colon_at(sv, i) {
                        assert(sv[i] == ':');
                    }
                }
            }
            return Err(RecordIDError::InvalidFormat);
        }
        if ci < 2 || ci > n - 2 {
            proof {
                assert forall|i: int| !colon_at(sv, i) by {
                    if colon_at(sv, i) {
                        assert(sv[i] == ':');
                        assert(i == ci);
                    }
                }
            }
            return Err(RecordIDError::InvalidFormat);
        }
        proof {
            assert(colon_at(sv, ci as int));
            assert(rid_shape(sv));
            lemma_colon_at_unique(sv, colon_idx(sv), ci as int);
        }
        let bucket_str = text.substring_char(1, ci);
        let position_str = text.substring_char(ci + 1, n);
        let (bucket_neg, bucket_mag) = match parse_half(
            bucket_str,
            2147483647u64,
            2147483648u64,
        ) {
            Ok(p) => p,
            Err(e) => {
                return Err(e);
            },
        };
        let (position_neg, position_mag) = match parse_half(
            position_str,
            9223372036854775807u64,
            9223372036854775808u64,
        ) {
            Ok(p) => p,
            Err(e) => {
                return Err(e);
            },
        };
        let bucket_id: i32 = if bucket_neg {
            (-(bucket_mag as i64)) as i32
        } else {
            bucket_mag as i32
        };
        let record_position: i64 = if position_neg {
            if position_mag == 9223372036854775808u64 {
                i64::MIN
            } else {
                -(position_mag as i64)
            }
        } else {
            position_mag as i64
        };
        Ok(RecordID { bucket_id, record_position })
    }

    /// The canonical text form `#<bucket>:<position>`.
    pub fn encode(&self) -> (r: String)
        ensures
            r@ == rid_text(self.bucket_id as int, self.record_position as int),
    {
        proof {
            reveal_strlit("#");
            reveal_strlit(":");
        }
        let bucket = i64_dec_str(self.bucket_id as i64);
        let position = i64_dec_str(self.record_position);
        let r = String::from_str("#")
            .concat(bucket.as_str())
            .concat(":")
            .concat(position.as_str());
        proof {
            assert(r@ =~= rid_text(self.bucket_id as int, self.record_position as int));
        }
        r
    }
}

} // verus!
