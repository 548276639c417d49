use vstd::prelude::*;

verus! {

/// Separator between the tokens of an encoded extra-info string.
pub const KEY_SEPARATOR: char = ' ';

/// Revive queue id that marks a message popped in ordered-consumption mode.
pub const POP_ORDER_REVIVE_QUEUE: i32 = 999;

// ---------------------------------------------------------------------------
// Mathematical model of the wire format
// ---------------------------------------------------------------------------

/// Index of the first separator at or after `start`, or `s.len()` when none.
pub open spec fn token_end(s: Seq<char>, start: int) -> int
    decreases s.len() - start,
{
    if start >= s.len() || start < 0 || s[start] == KEY_SEPARATOR {
        start
    } else {
        token_end(s, start + 1)
    }
}

/// The `k`-th separator-delimited token of `s`, counting from zero.
pub open spec fn nth_token(s: Seq<char>, k: nat) -> Option<Seq<char>>
    decreases k,
{
    let e = token_end(s, 0);
    if k == 0 {
        Some(s.subrange(0, e))
    } else if e >= s.len() {
        None
    } else {
        nth_token(s.subrange(e + 1, s.len() as int), (k - 1) as nat)
    }
}

pub open spec fn is_digit(c: char) -> bool {
    '0' <= c && c <= '9'
}

pub open spec fn digit_value(c: char) -> int {
    c as int - '0' as int
}

pub open spec fn digit_char(d: nat) -> char
    recommends
        d < 10,
{
    if d == 0 {
        '0'
    } else if d == 1 {
        '1'
    } else if d == 2 {
        '2'
    } else if d == 3 {
        '3'
    } else if d == 4 {
        '4'
    } else if d == 5 {
        '5'
    } else if d == 6 {
        '6'
    } else if d == 7 {
        '7'
    } else if d == 8 {
        '8'
    } else {
        '9'
    }
}

/// Value of a string of decimal digits, most significant first.
pub open spec fn decimal_value(s: Seq<char>) -> int
    decreases s.len(),
{
    if s.len() == 0 {
        0
    } else {
        decimal_value(s.drop_last()) * 10 + digit_value(s.last())
    }
}

pub open spec fn is_decimal(s: Seq<char>) -> bool {
    s.len() > 0 && forall|i: int| 0 <= i < s.len() ==> #[trigger] is_digit(s[i])
}

/// A non-empty run of decimal digits whose value fits in `u64`.
pub open spec fn parse_u64_spec(s: Seq<char>) -> Option<u64> {
    if is_decimal(s) && decimal_value(s) <= u64::MAX {
        Some(decimal_value(s) as u64)
    } else {
        None
    }
}

/// A non-empty run of decimal digits whose value fits in a non-negative `i32`.
pub open spec fn parse_i32_spec(s: Seq<char>) -> Option<i32> {
    match parse_u64_spec(s) {
        Some(v) => if v <= i32::MAX {
            Some(v as i32)
        } else {
            None
        },
        None => None,
    }
}

/// Decimal representation of `n`, without sign or leading zeros.
pub open spec fn decimal_digits(n: nat) -> Seq<char>
    decreases n,
{
    if n < 10 {
        seq![digit_char(n)]
    } else {
        decimal_digits(n / 10).push(digit_char(n % 10))
    }
}

/// Decoded checkpoint coordinates, as plain mathematical values.
pub struct ExtraInfoModel {
    pub checkpoint_queue_offset: u64,
    pub pop_time: u64,
    pub invisible_time: u64,
    pub revive_queue_id: i32,
    pub broker_name: Seq<char>,
}

/// What a well-formed extra-info string decodes to.
///
/// The tokens are, in order: checkpoint queue offset, pop time, invisible time,
/// revive queue id, topic-kind marker, broker name. Tokens after the sixth are
/// carried for other consumers of the string and are not read here.
pub open spec fn decode_spec(s: Seq<char>) -> Option<ExtraInfoModel> {
    match (
        nth_token(s, 0),
        nth_token(s, 1),
        nth_token(s, 2),
        nth_token(s, 3),
        nth_token(s, 4),
        nth_token(s, 5),
    ) {
        (Some(t0), Some(t1), Some(t2), Some(t3), Some(_t4), Some(t5)) => {
            match (parse_u64_spec(t0), parse_u64_spec(t1), parse_u64_spec(t2), parse_i32_spec(t3)) {
                (Some(ck), Some(pt), Some(it), Some(rq)) => Some(
                    ExtraInfoModel {
                        checkpoint_queue_offset: ck,
                        pop_time: pt,
                        invisible_time: it,
                        revive_queue_id: rq,
                        broker_name: t5,
                    },
                ),
                _ => None,
            }
        },
        _ => None,
    }
}

/// The topic-kind marker written for a message of an ordinary topic.
pub open spec fn normal_topic_marker() -> Seq<char> {
    seq!['0']
}

/// `a`, a separator, then `rest`.
pub open spec fn join_tokens(a: Seq<char>, rest: Seq<char>) -> Seq<char> {
    a + (seq![KEY_SEPARATOR] + rest)
}

/// Canonical encoding of a model, with the ordinary topic-kind marker.
pub open spec fn encode_spec(m: ExtraInfoModel) -> Seq<char> {
    let r4 = join_tokens(normal_topic_marker(), m.broker_name);
    let r3 = join_tokens(decimal_digits(m.revive_queue_id as nat), r4);
    let r2 = join_tokens(decimal_digits(m.invisible_time as nat), r3);
    let r1 = join_tokens(decimal_digits(m.pop_time as nat), r2);
    join_tokens(decimal_digits(m.checkpoint_queue_offset as nat), r1)
}

pub open spec fn has_no_separator(s: Seq<char>) -> bool {
    forall|i: int| 0 <= i < s.len() ==> s[i] != KEY_SEPARATOR
}

/// A model that some string encodes: the revive queue id is non-negative and
/// the broker name holds no separator.
pub open spec fn model_encodable(m: ExtraInfoModel) -> bool {
    m.revive_queue_id >= 0 && has_no_separator(m.broker_name)
}

// ---------------------------------------------------------------------------
// Lemmas
// ---------------------------------------------------------------------------

proof fn lemma_token_end_skips(s: Seq<char>, start: int, n: int)
    requires
        0 <= start,
        0 <= n,
        start + n <= s.len(),
        forall|i: int| start <= i < start + n ==> s[i] != KEY_SEPARATOR,
    ensures
        token_end(s, start) == token_end(s, start + n),
    decreases n,
{
    if n > 0 {
        lemma_token_end_skips(s, start + 1, n - 1);
    }
}

/// In `a + [sep] + rest` with no separator in `a`, the first token is `a` and
/// every later token is a token of `rest`.
proof fn lemma_tokens_of_join(a: Seq<char>, rest: Seq<char>)
    requires
        has_no_separator(a),
    ensures
        nth_token(a + (seq![KEY_SEPARATOR] + rest), 0) == Some(a),
        forall|k: nat| #[trigger]
            nth_token(a + (seq![KEY_SEPARATOR] + rest), k + 1) == nth_token(rest, k),
{
    let s = a + (seq![KEY_SEPARATOR] + rest);
    lemma_token_end_skips(s, 0, a.len() as int);
    assert(token_end(s, 0) == a.len());
    assert(s.subrange(0, a.len() as int) =~= a);
    assert(s.subrange(a.len() + 1int, s.len() as int) =~= rest);
    assert forall|k: nat| #[trigger] nth_token(s, k + 1) == nth_token(rest, k) by {
        assert(nth_token(s, k + 1) == nth_token(
            s.subrange(a.len() + 1int, s.len() as int),
            k,
        ));
    }
}

proof fn lemma_single_token(a: Seq<char>)
    requires
        has_no_separator(a),
    ensures
        nth_token(a, 0) == Some(a),
{
    lemma_token_end_skips(a, 0, a.len() as int);
    assert(a.subrange(0, a.len() as int) =~= a);
}

proof fn lemma_digit_char(d: nat)
    requires
        d < 10,
    ensures
        is_digit(digit_char(d)),
        digit_value(digit_char(d)) == d,
{
}

proof fn lemma_decimal_digits(n: nat)
    ensures
        is_decimal(decimal_digits(n)),
        decimal_value(decimal_digits(n)) == n,
    decreases n,
{
    if n < 10 {
        let d = decimal_digits(n);
        lemma_digit_char(n);
        assert(d.drop_last() =~= Seq::<char>::empty());
        assert(decimal_value(d.drop_last()) == 0);
        assert(d.last() == digit_char(n));
        assert(is_digit(d[0]));
    } else {
        lemma_decimal_digits(n / 10);
        lemma_digit_char(n % 10);
        assert(n == (n / 10) * 10 + n % 10) by (nonlinear_arith);
        let d = decimal_digits(n);
        assert(d.drop_last() =~= decimal_digits(n / 10));
        assert(d.last() == digit_char(n % 10));
        assert(decimal_value(d) == decimal_value(d.drop_last()) * 10 + digit_value(d.last()));
        assert(forall|i: int|
            0 <= i < d.len() - 1 ==> d[i] == #[trigger] decimal_digits(n / 10)[i]);
        assert forall|i: int| 0 <= i < d.len() implies #[trigger] is_digit(d[i]) by {
            if i < d.len() - 1 {
                assert(is_digit(decimal_digits(n / 10)[i]));
            }
        }
    }
}

proof fn lemma_digits_have_no_separator(n: nat)
    ensures
        has_no_separator(decimal_digits(n)),
{
    lemma_decimal_digits(n);
    let d = decimal_digits(n);
    assert forall|i: int| 0 <= i < d.len() implies d[i] != KEY_SEPARATOR by {
        assert(is_digit(d[i]));
    }
}

proof fn lemma_parse_digits_u64(n: u64)
    ensures
        parse_u64_spec(decimal_digits(n as nat)) == Some(n),
{
    lemma_decimal_digits(n as nat);
}

/// Extending a run of digits never lowers its value.
proof fn lemma_decimal_value_prefix(s: Seq<char>, k: int)
    requires
        0 <= k <= s.len(),
        forall|i: int| 0 <= i < s.len() ==> #[trigger] is_digit(s[i]),
    ensures
        decimal_value(s.take(k)) <= decimal_value(s),
        decimal_value(s.take(k)) >= 0,
    decreases s.len() - k,
{
    let t = s.take(k);
    assert forall|i: int| 0 <= i < t.len() implies #[trigger] is_digit(t[i]) by {
        assert(is_digit(s[i]));
    }
    lemma_decimal_value_nonneg(t);
    if k < s.len() {
        lemma_decimal_value_prefix(s, k + 1);
        let u = s.take(k + 1);
        assert(u.drop_last() =~= t);
        assert(is_digit(s[k]));
        assert(u.last() == s[k]);
    } else {
        assert(t =~= s);
    }
}

proof fn lemma_decimal_value_nonneg(s: Seq<char>)
    requires
        forall|i: int| 0 <= i < s.len() ==> #[trigger] is_digit(s[i]),
    ensures
        decimal_value(s) >= 0,
    decreases s.len(),
{
    if s.len() > 0 {
        assert(is_digit(s[s.len() - 1]));
        lemma_decimal_value_nonneg(s.drop_last());
    }
}

/// Encoding a model and decoding the result gives the model back: every field,
/// and with it the ordering flag, survives the round trip.
pub proof fn lemma_extra_info_round_trip(m: ExtraInfoModel)
    requires
        model_encodable(m),
    ensures
        decode_spec(encode_spec(m)) == Some(m),
        decode_spec(encode_spec(m)).unwrap().revive_queue_id == POP_ORDER_REVIVE_QUEUE
            <==> m.revive_queue_id == POP_ORDER_REVIVE_QUEUE,
{
    let d0 = decimal_digits(m.checkpoint_queue_offset as nat);
    let d1 = decimal_digits(m.pop_time as nat);
    let d2 = decimal_digits(m.invisible_time as nat);
    let d3 = decimal_digits(m.revive_queue_id as nat);
    let d4 = normal_topic_marker();
    let r5 = m.broker_name;
    let r4 = join_tokens(d4, r5);
    let r3 = join_tokens(d3, r4);
    let r2 = join_tokens(d2, r3);
    let r1 = join_tokens(d1, r2);
    let r0 = join_tokens(d0, r1);
    assert(r0 == encode_spec(m));
    lemma_digits_have_no_separator(m.checkpoint_queue_offset as nat);
    lemma_digits_have_no_separator(m.pop_time as nat);
    lemma_digits_have_no_separator(m.invisible_time as nat);
    lemma_digits_have_no_separator(m.revive_queue_id as nat);
    lemma_tokens_of_join(d0, r1);
    lemma_tokens_of_join(d1, r2);
    lemma_tokens_of_join(d2, r3);
    lemma_tokens_of_join(d3, r4);
    lemma_tokens_of_join(d4, r5);
    lemma_single_token(r5);
    assert(nth_token(r0, 0) == Some(d0));
    assert(nth_token(r0, 1) == Some(d1)) by {
        assert(nth_token(r0, 0 + 1) == nth_token(r1, 0));
    }
    assert(nth_token(r0, 2) == Some(d2)) by {
        assert(nth_token(r0, 1 + 1) == nth_token(r1, 1));
        assert(nth_token(r1, 0 + 1) == nth_token(r2, 0));
    }
    assert(nth_token(r0, 3) == Some(d3)) by {
        assert(nth_token(r0, 2 + 1) == nth_token(r1, 2));
        assert(nth_token(r1, 1 + 1) == nth_token(r2, 1));
        assert(nth_token(r2, 0 + 1) == nth_token(r3, 0));
    }
    assert(nth_token(r0, 4) == Some(d4)) by {
        assert(nth_token(r0, 3 + 1) == nth_token(r1, 3));
        assert(nth_token(r1, 2 + 1) == nth_token(r2, 2));
        assert(nth_token(r2, 1 + 1) == nth_token(r3, 1));
        assert(nth_token(r3, 0 + 1) == nth_token(r4, 0));
    }
    assert(nth_token(r0, 5) == Some(r5)) by {
        assert(nth_token(r0, 4 + 1) == nth_token(r1, 4));
        assert(nth_token(r1, 3 + 1) == nth_token(r2, 3));
        assert(nth_token(r2, 2 + 1) == nth_token(r3, 2));
        assert(nth_token(r3, 1 + 1) == nth_token(r4, 1));
        assert(nth_token(r4, 0 + 1) == nth_token(r5, 0));
    }
    lemma_parse_digits_u64(m.checkpoint_queue_offset);
    lemma_parse_digits_u64(m.pop_time);
    lemma_parse_digits_u64(m.invisible_time);
    lemma_parse_digits_u64(m.revive_queue_id as u64);
}

// ---------------------------------------------------------------------------
// Executable codec
// ---------------------------------------------------------------------------

/// Checkpoint coordinates carried in the extra-info string of a popped message.
pub struct ExtraInfo {
    pub checkpoint_queue_offset: u64,
    pub pop_time: u64,
    pub invisible_time: u64,
    pub revive_queue_id: i32,
    pub broker_name: String,
}

impl View for ExtraInfo {
    type V = ExtraInfoModel;

    open spec fn view(&self) -> ExtraInfoModel {
        ExtraInfoModel {
            checkpoint_queue_offset: self.checkpoint_queue_offset,
            pop_time: self.pop_time,
            invisible_time: self.invisible_time,
            revive_queue_id: self.revive_queue_id,
            broker_name: self.broker_name@,
        }
    }
}

impl ExtraInfo {
    /// Whether the message was popped in ordered-consumption mode.
    pub fn is_order(&self) -> (r: bool)
        ensures
            r == (self.revive_queue_id == POP_ORDER_REVIVE_QUEUE),
    {
        self.revive_queue_id == POP_ORDER_REVIVE_QUEUE
    }
}

/// An extra-info string that lacks a token or holds a malformed one.
#[derive(Debug, Clone, Copy, PartialEq, Eq)]
pub enum ExtraInfoError {
    Malformed,
}

proof fn lemma_token_end_bounds(s: Seq<char>, start: int)
    requires
        0 <= start <= s.len(),
    ensures
        start <= token_end(s, start) <= s.len(),
    decreases s.len() - start,
{
    if start < s.len() && s[start] != KEY_SEPARATOR {
        lemma_token_end_bounds(s, start + 1);
    }
}

/// Splits off the first token; the rest follows its separator, if there is one.
fn split_first_token(s: &str) -> (r: (&str, Option<&str>))
    ensures
        nth_token(s@, 0) == Some(r.0@),
        r.1 is None ==> forall|k: nat| k > 0 ==> #[trigger] nth_token(s@, k) is None,
        r.1 matches Some(rest) ==> forall|k: nat|
            k > 0 ==> #[trigger] nth_token(s@, k) == nth_token(rest@, (k - 1) as nat),
{
    let len = s.unicode_len();
    let mut i: usize = 0;
    proof {
        lemma_token_end_bounds(s@, 0);
    }
    while i < len
        invariant
            len == s@.len(),
            i <= len,
            token_end(s@, 0) == token_end(s@, i as int),
        decreases len - i,
    {
        if s.get_char(i) == KEY_SEPARATOR {
            let head = s.substring_char(0, i);
            let rest = s.substring_char(i + 1, len);
            return (head, Some(rest));
        }
        i = i + 1;
    }
    (s.substring_char(0, len), None)
}

/// Reads a non-empty run of decimal digits that fits in `u64`.
pub(crate) fn parse_u64(t: &str) -> (r: Option<u64>)
    ensures
        r == parse_u64_spec(t@),
{
    let len = t.unicode_len();
    if len == 0 {
        return None;
    }
    let mut value: u64 = 0;
    let mut i: usize = 0;
    assert(t@.take(0) =~= Seq::<char>::empty());
    while i < len
        invariant
            len == t@.len(),
            i <= len,
            forall|j: int| 0 <= j < i ==> #[trigger] is_digit(t@[j]),
            value as int == decimal_value(t@.take(i as int)),
        decreases len - i,
    {
        let c = t.get_char(i);
        if !('0' <= c && c <= '9') {
            assert(!is_digit(t@[i as int]));
            return None;
        }
        let d: u64 = (c as u32 - '0' as u32) as u64;
        let ghost next = t@.take(i + 1);
        assert(next.drop_last() =~= t@.take(i as int));
        assert(next.last() == c);
        assert(decimal_value(next) == value * 10 + d);
        match value.checked_mul(10) {
            Some(v) => match v.checked_add(d) {
                Some(w) => {
                    value = w;
                },
                None => {
                    proof {
                        if is_decimal(t@) {
                            lemma_decimal_value_prefix(t@, i + 1);
                        }
                    }
                    return None;
                },
            },
            None => {
                proof {
                    if is_decimal(t@) {
                        lemma_decimal_value_prefix(t@, i + 1);
                    }
                }
                return None;
            },
        }
        i = i + 1;
    }
    assert(t@.take(len as int) =~= t@);
    Some(value)
}

/// Reads a non-empty run of decimal digits that fits in a non-negative `i32`.
fn parse_i32(t: &str) -> (r: Option<i32>)
    ensures
        r == parse_i32_spec(t@),
{
    match parse_u64(t) {
        Some(v) => if v <= i32::MAX as u64 {
            Some(v as i32)
        } else {
            None
        },
        None => None,
    }
}

/// Decodes the extra-info string of a pop request; it fails as a whole when a
/// token is missing or malformed.
pub fn decode_extra_info(s: &str) -> (r: Result<ExtraInfo, ExtraInfoError>)
    ensures
        match r {
            Ok(v) => decode_spec(s@) == Some(v@),
            Err(_) => decode_spec(s@) is None,
        },
{
    let (t0, r0) = split_first_token(s);
    let r0 = match r0 {
        Some(x) => x,
        None => {
            assert(nth_token(s@, 1) is None);
            return Err(ExtraInfoError::Malformed);
        },
    };
    let (t1, r1) = split_first_token(r0);
    let r1 = match r1 {
        Some(x) => x,
        None => {
            assert(nth_token(s@, 2) is None);
            return Err(ExtraInfoError::Malformed);
        },
    };
    let (t2, r2) = split_first_token(r1);
    let r2 = match r2 {
        Some(x) => x,
        None => {
            assert(nth_token(s@, 3) is None);
            return Err(ExtraInfoError::Malformed);
        },
    };
    let (t3, r3) = split_first_token(r2);
    let r3 = match r3 {
        Some(x) => x,
        None => {
            assert(nth_token(s@, 4) is None);
            return Err(ExtraInfoError::Malformed);
        },
    };
    let (_t4, r4) = split_first_token(r3);
    let r4 = match r4 {
        Some(x) => x,
        None => {
            assert(nth_token(s@, 5) is None);
            return Err(ExtraInfoError::Malformed);
        },
    };
    let (t5, _r5) = split_first_token(r4);
    assert(nth_token(s@, 1) == Some(t1@));
    assert(nth_token(s@, 2) == Some(t2@));
    assert(nth_token(s@, 3) == Some(t3@));
    assert(nth_token(s@, 4) == Some(_t4@));
    assert(nth_token(s@, 5) == Some(t5@));
    let checkpoint_queue_offset = match parse_u64(t0) {
        Some(v) => v,
        None => return Err(ExtraInfoError::Malformed),
    };
    let pop_time = match parse_u64(t1) {
        Some(v) => v,
        None => return Err(ExtraInfoError::Malformed),
    };
    let invisible_time = match parse_u64(t2) {
        Some(v) => v,
        None => return Err(ExtraInfoError::Malformed),
    };
    let revive_queue_id = match parse_i32(t3) {
        Some(v) => v,
        None => return Err(ExtraInfoError::Malformed),
    };
    Ok(
        ExtraInfo {
            checkpoint_queue_offset,
            pop_time,
            invisible_time,
            revive_queue_id,
            broker_name: String::from_str(t5),
        },
    )
}

/// Relies on `<u64 as ToString>::to_string`: the decimal form of the number.
#[verifier::external_body]
pub(crate) fn decimal_string(n: u64) -> (r: String)
    ensures
        r@ == decimal_digits(n as nat),
{
    n.to_string()
}

fn prepend_token(head: String, rest: &String) -> (r: String)
    ensures
        r@ == join_tokens(head@, rest@),
{
    let mut r = head;
    r.append(" ");
    r.append(rest.as_str());
    proof {
        reveal_strlit(" ");
    }
    assert(r@ =~= join_tokens(head@, rest@));
    r
}

/// Encodes checkpoint coordinates in the canonical form, with the topic-kind
/// marker of an ordinary topic.
pub fn encode_extra_info(info: &ExtraInfo) -> (r: String)
    requires
        info.revive_queue_id >= 0,
    ensures
        r@ == encode_spec(info@),
{
    proof {
        reveal_strlit(" ");
        reveal_strlit("0");
    }
    let mut r4 = String::from_str("0");
    r4.append(" ");
    r4.append(info.broker_name.as_str());
    assert(r4@ =~= join_tokens(normal_topic_marker(), info.broker_name@));
    let r3 = prepend_token(decimal_string(info.revive_queue_id as u64), &r4);
    let r2 = prepend_token(decimal_string(info.invisible_time), &r3);
    let r1 = prepend_token(decimal_string(info.pop_time), &r2);
    let s = prepend_token(decimal_string(info.checkpoint_queue_offset), &r1);
    s
}

} // verus!
