//! The outbound side: typed header values and the message to publish.

use crate::body::boxed_bytes;
use crate::errors::MessagingError;
use crate::text::{borrowed_text, owned_text, to_owned_text};
use std::collections::HashMap;
use vstd::prelude::*;

verus! {

/// The character that stands for one decimal digit.
pub open spec fn digit_char(d: int) -> char {
    if d == 0 {
        '0'
    } else if d == 1 {
        '1'
    } else if d == 2 {
        '2'
    } else if d == 3 {
        '3'
    } else if d == 4 {
        '4'
    } else if d == 5 {
        '5'
    } else if d == 6 {
        '6'
    } else if d == 7 {
        '7'
    } else if d == 8 {
        '8'
    } else {
        '9'
    }
}

/// The decimal digits of a natural number, most significant first, with no
/// leading zero (zero itself is the single digit `0`).
pub open spec fn decimal_digits(n: nat) -> Seq<char>
    decreases n,
{
    if n < 10 {
        seq![digit_char(n as int)]
    } else {
        decimal_digits(n / 10).push(digit_char((n % 10) as int))
    }
}

/// The canonical decimal text of an integer: a minus sign for a negative
/// number, then the digits of its magnitude.
pub open spec fn decimal(i: int) -> Seq<char> {
    if i < 0 {
        seq!['-'] + decimal_digits((-i) as nat)
    } else {
        decimal_digits(i as nat)
    }
}

/// The digit that a character stands for; zero for any other character.
pub open spec fn digit_value(c: char) -> int {
    if c == '1' {
        1
    } else if c == '2' {
        2
    } else if c == '3' {
        3
    } else if c == '4' {
        4
    } else if c == '5' {
        5
    } else if c == '6' {
        6
    } else if c == '7' {
        7
    } else if c == '8' {
        8
    } else if c == '9' {
        9
    } else {
        0
    }
}

/// The number that a sequence of digits denotes in base ten.
pub open spec fn digits_value(digits: Seq<char>) -> int
    decreases digits.len(),
{
    if digits.len() == 0 {
        0
    } else {
        10 * digits_value(digits.drop_last()) + digit_value(digits.last())
    }
}

/// The digits of a number denote that number, and they begin with a digit,
/// never with a minus sign.
pub proof fn lemma_digits_denote_the_number(n: nat)
    ensures
        digits_value(decimal_digits(n)) == n,
        decimal_digits(n).len() > 0,
        decimal_digits(n)[0] != '-',
    decreases n,
{
    if n < 10 {
        let digits = decimal_digits(n);
        assert(digits.drop_last().len() == 0);
        assert(digits_value(digits.drop_last()) == 0);
        assert(digits.last() == digit_char(n as int));
    } else {
        lemma_digits_denote_the_number(n / 10);
        let front = decimal_digits(n / 10);
        let digits = front.push(digit_char((n % 10) as int));
        assert(digits.drop_last() =~= front);
        assert(digits.last() == digit_char((n % 10) as int));
        assert(digits[0] == front[0]);
    }
}

/// The text of a number is lossless: two integers with the same decimal
/// text are the same integer.
pub proof fn lemma_decimal_is_lossless(a: int, b: int)
    requires
        decimal(a) == decimal(b),
    ensures
        a == b,
{
    let ma: nat = if a < 0 { (-a) as nat } else { a as nat };
    let mb: nat = if b < 0 { (-b) as nat } else { b as nat };
    lemma_digits_denote_the_number(ma);
    lemma_digits_denote_the_number(mb);
    let minus = seq!['-'];
    if a < 0 {
        assert(decimal(a)[0] == '-');
    } else {
        assert(decimal(a)[0] != '-');
    }
    if b < 0 {
        assert(decimal(b)[0] == '-');
    } else {
        assert(decimal(b)[0] != '-');
    }
    if a < 0 {
        assert((minus + decimal_digits(ma)).drop_first() =~= decimal_digits(ma));
        assert((minus + decimal_digits(mb)).drop_first() =~= decimal_digits(mb));
    }
}

fn digit_str(d: u64) -> (s: &'static str)
    requires
        d < 10,
    ensures
        s@ == seq![digit_char(d as int)],
{
    proof {
        reveal_strlit("0");
        reveal_strlit("1");
        reveal_strlit("2");
        reveal_strlit("3");
        reveal_strlit("4");
        reveal_strlit("5");
        reveal_strlit("6");
        reveal_strlit("7");
        reveal_strlit("8");
        reveal_strlit("9");
    }
    let s = if d == 0 {
        "0"
    } else if d == 1 {
        "1"
    } else if d == 2 {
        "2"
    } else if d == 3 {
        "3"
    } else if d == 4 {
        "4"
    } else if d == 5 {
        "5"
    } else if d == 6 {
        "6"
    } else if d == 7 {
        "7"
    } else if d == 8 {
        "8"
    } else {
        "9"
    };
    assert(s@ =~= seq![digit_char(d as int)]);
    s
}

fn push_digits(n: u64, out: &mut String)
    ensures
        final(out)@ == old(out)@ + decimal_digits(n as nat),
    decreases n,
{
    if n >= 10 {
        push_digits(n / 10, out);
    }
    out.append(digit_str(n % 10));
    assert(out@ =~= old(out)@ + decimal_digits(n as nat));
}

/// The decimal text of an unsigned number.
pub fn unsigned_text(v: u64) -> (s: String)
    ensures
        s@ == decimal(v as int),
{
    let mut s = String::new();
    push_digits(v, &mut s);
    assert(s@ =~= decimal(v as int));
    s
}

/// The decimal text of a signed number.
pub fn signed_text(v: i64) -> (s: String)
    ensures
        s@ == decimal(v as int),
{
    if v < 0 {
        let magnitude: u64 = (-(v + 1)) as u64 + 1;
        let mut s = String::from_str("-");
        proof {
            reveal_strlit("-");
        }
        push_digits(magnitude, &mut s);
        assert(s@ =~= decimal(v as int));
        s
    } else {
        unsigned_text(v as u64)
    }
}

/// A header value of one of eight representations.
pub enum HeaderValues {
    /// A short string value.
    ShortString(String),
    /// A long string value.
    LongString(String),
    /// An 8-bit signed integer value.
    Int(i8),
    /// A 32-bit signed integer value.
    LongInt(i32),
    /// A 64-bit signed integer value.
    LongLongInt(i64),
    /// An 8-bit unsigned integer value.
    Uint(u8),
    /// A 32-bit unsigned integer value.
    LongUint(u32),
    /// A 64-bit unsigned integer value.
    LongLongUint(u64),
}

impl HeaderValues {
    /// The text of a header value: a string as it is, a number in its
    /// canonical decimal form.
    pub open spec fn text(self) -> Seq<char> {
        match self {
            HeaderValues::ShortString(v) => v@,
            HeaderValues::LongString(v) => v@,
            HeaderValues::Int(v) => decimal(v as int),
            HeaderValues::LongInt(v) => decimal(v as int),
            HeaderValues::LongLongInt(v) => decimal(v as int),
            HeaderValues::Uint(v) => decimal(v as int),
            HeaderValues::LongUint(v) => decimal(v as int),
            HeaderValues::LongLongUint(v) => decimal(v as int),
        }
    }
}

impl Clone for HeaderValues {
    /// A copy of the same representation with the same content.
    fn clone(&self) -> (v: Self)
        ensures
            v == *self,
    {
        match self {
            HeaderValues::ShortString(s) => HeaderValues::ShortString(s.clone()),
            HeaderValues::LongString(s) => HeaderValues::LongString(s.clone()),
            HeaderValues::Int(n) => HeaderValues::Int(*n),
            HeaderValues::LongInt(n) => HeaderValues::LongInt(*n),
            HeaderValues::LongLongInt(n) => HeaderValues::LongLongInt(*n),
            HeaderValues::Uint(n) => HeaderValues::Uint(*n),
            HeaderValues::LongUint(n) => HeaderValues::LongUint(*n),
            HeaderValues::LongLongUint(n) => HeaderValues::LongLongUint(*n),
        }
    }
}

impl From<HeaderValues> for String {
    /// Converts a header value to its text. Every value has one.
    fn from(val: HeaderValues) -> (s: String)
        ensures
            s@ == val.text(),
    {
        match val {
            HeaderValues::ShortString(v) => v,
            HeaderValues::LongString(v) => v,
            HeaderValues::Int(v) => signed_text(v as i64),
            HeaderValues::LongInt(v) => signed_text(v as i64),
            HeaderValues::LongLongInt(v) => signed_text(v),
            HeaderValues::Uint(v) => unsigned_text(v as u64),
            HeaderValues::LongUint(v) => unsigned_text(v as u64),
            HeaderValues::LongLongUint(v) => unsigned_text(v),
        }
    }
}

impl vstd::std_specs::convert::FromSpecImpl<HeaderValues> for String {
    /// The conversion is specified by the characters of its result, in the
    /// `ensures` of `from`: the verifier does not identify two strings that
    /// hold the same characters, so `from_spec` decides nothing.
    open spec fn obeys_from_spec() -> bool {
        false
    }

    open spec fn from_spec(v: HeaderValues) -> String {
        choose|s: String| s@ == v.text()
    }
}

/// The conversion is deterministic: whatever two conversions of the same
/// header value return holds the same characters, those of its text.
pub proof fn lemma_conversion_is_deterministic(v: HeaderValues, first: String, second: String)
    requires
        call_ensures(<String as From<HeaderValues>>::from, (v,), first),
        call_ensures(<String as From<HeaderValues>>::from, (v,), second),
    ensures
        first@ == second@,
        first@ == v.text(),
{
}

/// One message to be sent.
pub struct PublishMessage {
    /// Optional logical source of the message.
    pub from: Option<String>,
    /// The destination: an exchange, topic or queue name.
    pub to: String,
    /// Optional routing key; its meaning is the backend's.
    pub key: Option<String>,
    /// Optional type tag of the message.
    pub msg_type: Option<String>,
    /// The body of the message.
    pub data: Box<[u8]>,
    /// Optional typed headers of the message.
    pub headers: Option<HashMap<String, HeaderValues>>,
}

impl PublishMessage {
    /// The headers as a mathematical map, where there are any.
    pub open spec fn headers_view(&self) -> Option<Map<String, HeaderValues>> {
        match self.headers {
            Some(h) => Some(h@),
            None => None,
        }
    }

    /// A message can be published when it names a destination. Neither the
    /// body nor the headers bear on it: an empty body is a body.
    pub open spec fn publishable(&self) -> bool {
        self.to@.len() > 0
    }

    /// Creates a message from its parts. Construction never fails and
    /// checks nothing: every field holds what was given.
    pub fn new(
        from: Option<&str>,
        to: &str,
        key: Option<&str>,
        msg_type: Option<&str>,
        data: &[u8],
        headers: Option<HashMap<String, HeaderValues>>,
    ) -> (m: Self)
        ensures
            owned_text(m.from) == borrowed_text(from),
            m.to@ == to@,
            owned_text(m.key) == borrowed_text(key),
            owned_text(m.msg_type) == borrowed_text(msg_type),
            m.data@ == data@,
            m.headers == headers,
    {
        PublishMessage {
            from: to_owned_text(from),
            to: String::from_str(to),
            key: to_owned_text(key),
            msg_type: to_owned_text(msg_type),
            data: boxed_bytes(data),
            headers,
        }
    }

    /// Checks the message before it is handed to a transport: a message
    /// without a destination is refused with `PublisherError`, every other
    /// message is accepted.
    pub fn validate(&self) -> (checked: Result<(), MessagingError>)
        ensures
            checked is Ok <==> self.publishable(),
            checked matches Err(e) ==> e == MessagingError::PublisherError,
    {
        if self.to.as_str().is_empty() {
            Err(MessagingError::PublisherError)
        } else {
            Ok(())
        }
    }
}

/// Whether a message can be published is decided by its destination alone:
/// two messages for the same destination are both accepted or both refused,
/// whatever their bodies and headers, so no message is refused for an empty
/// body.
pub proof fn lemma_destination_alone_decides(a: PublishMessage, b: PublishMessage)
    requires
        a.to@ == b.to@,
    ensures
        a.publishable() == b.publishable(),
{
}

impl Clone for PublishMessage {
    /// A copy that holds the same fields.
    fn clone(&self) -> (m: Self)
        ensures
            owned_text(m.from) == owned_text(self.from),
            m.to@ == self.to@,
            owned_text(m.key) == owned_text(self.key),
            owned_text(m.msg_type) == owned_text(self.msg_type),
            m.data@ == self.data@,
            m.headers_view() == self.headers_view(),
    {
        PublishMessage {
            from: self.from.clone(),
            to: self.to.clone(),
            key: self.key.clone(),
            msg_type: self.msg_type.clone(),
            data: boxed_bytes(&self.data),
            headers: self.headers.clone(),
        }
    }
}

} // verus!
