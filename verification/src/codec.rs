//! The inverse of the parameter marshaling: a parser specification for the
//! composite JSON form and the proof that it recovers what was marshaled.
//!
//! The boundary takes structured values as JSON text, so what the text
//! preserves decides what a reader on the other side can recover. The parser
//! here is a specification of that reading; the round-trip lemmas state that
//! the marshaled form of a record is lossless.

use vstd::prelude::*;

use crate::output::{
    spec_action_json, spec_bytes_from, spec_identity_json, spec_params_json,
    spec_params_members, WriteParams, WriteParamsAction, WriteParamsIdentity,
};
use crate::text::{dec_digit, spec_dec_i64, spec_dec_u64};

verus! {

/// A decimal digit character.
pub open spec fn is_digit(c: char) -> bool {
    48 <= c as int <= 57
}

/// The value of a decimal digit character.
pub open spec fn digit_val(c: char) -> nat {
    (c as int - 48) as nat
}

/// `s` begins with `prefix`.
pub open spec fn starts_with(s: Seq<char>, prefix: Seq<char>) -> bool {
    prefix.len() <= s.len() && s.subrange(0, prefix.len() as int) == prefix
}

/// Consume an expected prefix, leaving the rest.
pub open spec fn consume(s: Seq<char>, prefix: Seq<char>) -> Option<Seq<char>> {
    if starts_with(s, prefix) {
        Some(s.skip(prefix.len() as int))
    } else {
        None
    }
}

/// Consuming a prefix off the text it prefixes leaves exactly the rest.
proof fn lemma_consume_concat(a: Seq<char>, b: Seq<char>)
    ensures
        consume(a + b, a) == Some(b),
{
    assert((a + b).subrange(0, a.len() as int) =~= a);
    assert((a + b).skip(a.len() as int) =~= b);
}

/// A prefix that differs at one position is not consumed.
proof fn lemma_consume_mismatch(s: Seq<char>, prefix: Seq<char>, k: int)
    requires
        0 <= k < prefix.len(),
        k < s.len() ==> s[k] != prefix[k],
    ensures
        consume(s, prefix) is None,
{
    if starts_with(s, prefix) {
        assert(s.subrange(0, prefix.len() as int)[k] == s[k]);
    }
}

/// Read a run of digits, most significant first, into an accumulator.
pub open spec fn parse_digits(s: Seq<char>, acc: nat) -> (nat, Seq<char>)
    decreases s.len(),
{
    if s.len() > 0 && is_digit(s[0]) {
        parse_digits(s.skip(1), acc * 10 + digit_val(s[0]))
    } else {
        (acc, s)
    }
}

/// Read an unsigned decimal number: at least one digit, then the rest.
pub open spec fn parse_number(s: Seq<char>) -> Option<(nat, Seq<char>)> {
    if s.len() > 0 && is_digit(s[0]) {
        Some(parse_digits(s, 0))
    } else {
        None
    }
}

/// Read an optionally negated decimal number.
pub open spec fn parse_signed(s: Seq<char>) -> Option<(int, Seq<char>)> {
    if s.len() > 0 && s[0] == '-' {
        match parse_number(s.skip(1)) {
            Some((n, rest)) => Some((-(n as int), rest)),
            None => None,
        }
    } else {
        match parse_number(s) {
            Some((n, rest)) => Some((n as int, rest)),
            None => None,
        }
    }
}

/// What an accumulator becomes after the digits of `n` are read into it.
spec fn acc_extend(acc: nat, n: nat) -> nat
    decreases n,
{
    if n < 10 {
        acc * 10 + n
    } else {
        acc_extend(acc, n / 10) * 10 + n % 10
    }
}

/// Reading the printed digits of `n` extends the accumulator by `n`.
proof fn lemma_parse_digits_print(n: nat, rest: Seq<char>, acc: nat)
    ensures
        parse_digits(spec_dec_u64(n) + rest, acc) == parse_digits(rest, acc_extend(acc, n)),
    decreases n,
{
    if n < 10 {
        let s = spec_dec_u64(n) + rest;
        assert(s[0] == dec_digit(n));
        assert(s.skip(1) =~= rest);
    } else {
        let d = dec_digit(n % 10);
        assert(spec_dec_u64(n) + rest =~= spec_dec_u64(n / 10) + (seq![d] + rest));
        lemma_parse_digits_print(n / 10, seq![d] + rest, acc);
        let s1 = seq![d] + rest;
        assert(s1[0] == d);
        assert(s1.skip(1) =~= rest);
    }
}

/// Reading into an empty accumulator yields the number itself.
proof fn lemma_acc_extend_zero(n: nat)
    ensures
        acc_extend(0, n) == n,
    decreases n,
{
    if n >= 10 {
        lemma_acc_extend_zero(n / 10);
    }
}

/// The printed form of a number starts with a digit.
proof fn lemma_print_starts_with_digit(n: nat)
    ensures
        spec_dec_u64(n).len() >= 1,
        is_digit(spec_dec_u64(n)[0]),
    decreases n,
{
    if n >= 10 {
        lemma_print_starts_with_digit(n / 10);
    }
}

/// Reading the printed form of a number recovers it exactly, as long as the
/// text after it does not begin with another digit.
proof fn lemma_parse_number_print(n: nat, rest: Seq<char>)
    requires
        rest.len() == 0 || !is_digit(rest[0]),
    ensures
        parse_number(spec_dec_u64(n) + rest) == Some((n, rest)),
{
    lemma_print_starts_with_digit(n);
    let s = spec_dec_u64(n) + rest;
    assert(s[0] == spec_dec_u64(n)[0]);
    lemma_parse_digits_print(n, rest, 0);
    lemma_acc_extend_zero(n);
}

/// Reading the printed form of a signed number recovers it exactly.
proof fn lemma_parse_signed_print(v: int, rest: Seq<char>)
    requires
        rest.len() == 0 || !is_digit(rest[0]),
    ensures
        parse_signed(spec_dec_i64(v) + rest) == Some((v, rest)),
{
    if v >= 0 {
        lemma_parse_number_print(v as nat, rest);
        lemma_print_starts_with_digit(v as nat);
        let s = spec_dec_u64(v as nat) + rest;
        assert(s[0] == spec_dec_u64(v as nat)[0]);
        assert(s[0] != '-');
    } else {
        let body = spec_dec_u64((-v) as nat) + rest;
        let s = spec_dec_i64(v) + rest;
        assert(s =~= seq!['-'] + body);
        assert(s[0] == '-');
        assert(s.skip(1) =~= body);
        lemma_parse_number_print((-v) as nat, rest);
    }
}

/// Read the comma-separated bytes from position `i` of a sixteen-byte list.
pub open spec fn parse_bytes(s: Seq<char>, i: int) -> Option<(Seq<u8>, Seq<char>)>
    decreases 16 - i,
{
    if i >= 16 {
        Some((Seq::empty(), s))
    } else {
        match parse_number(s) {
            None => None,
            Some((n, s1)) => {
                if n > 255 {
                    None
                } else if i == 15 {
                    Some((seq![n as u8], s1))
                } else {
                    match consume(s1, ","@) {
                        None => None,
                        Some(s2) => match parse_bytes(s2, i + 1) {
                            None => None,
                            Some((bs, s3)) => Some((seq![n as u8] + bs, s3)),
                        },
                    }
                }
            },
        }
    }
}

/// Reading the printed byte list from position `i` recovers the bytes from
/// `i` on, as long as the text after it does not begin with a digit.
proof fn lemma_parse_bytes_print(bytes: Seq<u8>, i: int, rest: Seq<char>)
    requires
        bytes.len() == 16,
        0 <= i < 16,
        rest.len() == 0 || !is_digit(rest[0]),
    ensures
        parse_bytes(spec_bytes_from(bytes, i) + rest, i) == Some((bytes.skip(i), rest)),
    decreases 16 - i,
{
    if i == 15 {
        lemma_parse_number_print(bytes[i] as nat, rest);
        assert(seq![bytes[i]] =~= bytes.skip(i));
    } else {
        let tail = spec_bytes_from(bytes, i + 1);
        let s = spec_bytes_from(bytes, i) + rest;
        assert(s =~= spec_dec_u64(bytes[i] as nat) + (","@ + (tail + rest)));
        reveal_strlit(",");
        assert((","@ + (tail + rest))[0] == ',');
        lemma_parse_number_print(bytes[i] as nat, ","@ + (tail + rest));
        lemma_consume_concat(","@, tail + rest);
        lemma_parse_bytes_print(bytes, i + 1, rest);
        assert(seq![bytes[i]] + bytes.skip(i + 1) =~= bytes.skip(i));
    }
}

/// A parsed sample identity: the record a reader of the composite form can
/// recover from the text alone.
pub struct ParsedIdentity {
    /// The sixteen writer-identifier bytes.
    pub writer_guid: Seq<u8>,
    /// The sequence number.
    pub sequence_number: nat,
}

/// The identity a record marshals to.
pub open spec fn identity_model(id: WriteParamsIdentity) -> ParsedIdentity {
    ParsedIdentity {
        writer_guid: id.writer_guid@,
        sequence_number: id.sequence_number as nat,
    }
}

/// Read a sample identity in its composite form.
pub open spec fn parse_identity(s: Seq<char>) -> Option<(ParsedIdentity, Seq<char>)> {
    match consume(s, "{\"writer_guid\":["@) {
        None => None,
        Some(s1) => match parse_bytes(s1, 0) {
            None => None,
            Some((bytes, s2)) => match consume(s2, "],\"sequence_number\":"@) {
                None => None,
                Some(s3) => match parse_number(s3) {
                    None => None,
                    Some((n, s4)) => match consume(s4, "}"@) {
                        None => None,
                        Some(s5) => Some(
                            (ParsedIdentity { writer_guid: bytes, sequence_number: n }, s5),
                        ),
                    },
                },
            },
        },
    }
}

/// Reading the composite form of a sample identity recovers the identity:
/// the sixteen writer bytes and the sequence number survive the marshaling
/// exactly.
pub proof fn lemma_identity_round_trip(id: WriteParamsIdentity, rest: Seq<char>)
    requires
        rest.len() == 0 || !is_digit(rest[0]),
    ensures
        parse_identity(spec_identity_json(id) + rest) == Some((identity_model(id), rest)),
{
    let head = "{\"writer_guid\":["@;
    let mid = "],\"sequence_number\":"@;
    let close = "}"@;
    let bytes_text = spec_bytes_from(id.writer_guid@, 0);
    let number_text = spec_dec_u64(id.sequence_number as nat);
    let s = spec_identity_json(id) + rest;

    let after_head = bytes_text + (mid + (number_text + (close + rest)));
    assert(s =~= head + after_head);
    lemma_consume_concat(head, after_head);

    reveal_strlit("],\"sequence_number\":");
    assert(mid[0] == ']');
    let after_bytes = mid + (number_text + (close + rest));
    assert(after_bytes[0] == ']');
    lemma_parse_bytes_print(id.writer_guid@, 0, after_bytes);
    assert(id.writer_guid@.skip(0) =~= id.writer_guid@);

    let after_mid = number_text + (close + rest);
    lemma_consume_concat(mid, after_mid);

    reveal_strlit("}");
    assert((close + rest)[0] == '}');
    lemma_parse_number_print(id.sequence_number as nat, close + rest);

    lemma_consume_concat(close, rest);
}


/// A parsed set of write parameters: what a reader of the composite form
/// can recover from the text alone.
pub struct ParsedParams {
    /// The action, if one was marshaled.
    pub action: Option<WriteParamsAction>,
    /// The source timestamp, if one was marshaled.
    pub source_timestamp: Option<int>,
    /// The sample identity, if one was marshaled.
    pub identity: Option<ParsedIdentity>,
    /// The related sample identity, if one was marshaled.
    pub related_sample_identity: Option<ParsedIdentity>,
}

/// The record a set of write parameters marshals to.
pub open spec fn params_model(p: WriteParams) -> ParsedParams {
    ParsedParams {
        action: p.action,
        source_timestamp: match p.source_timestamp {
            Some(t) => Some(t as int),
            None => None,
        },
        identity: match p.identity {
            Some(id) => Some(identity_model(id)),
            None => None,
        },
        related_sample_identity: match p.related_sample_identity {
            Some(id) => Some(identity_model(id)),
            None => None,
        },
    }
}

/// A member's key in place: led by a comma unless it is the first member.
pub open spec fn member_key(key: Seq<char>, first: bool) -> Seq<char> {
    if first {
        key
    } else {
        ","@ + key
    }
}

/// Read the action word.
pub open spec fn parse_action_word(s: Seq<char>) -> Option<(WriteParamsAction, Seq<char>)> {
    match consume(s, "\"write\""@) {
        Some(rest) => Some((WriteParamsAction::Write, rest)),
        None => match consume(s, "\"dispose\""@) {
            Some(rest) => Some((WriteParamsAction::Dispose, rest)),
            None => match consume(s, "\"unregister\""@) {
                Some(rest) => Some((WriteParamsAction::Unregister, rest)),
                None => None,
            },
        },
    }
}

/// Read the action member, if it is present; the action is always the first
/// member of the object.
pub open spec fn parse_action_member(s: Seq<char>) -> (Option<WriteParamsAction>, Seq<char>, bool) {
    match consume(s, "\"action\":"@) {
        None => (None, s, true),
        Some(s1) => match parse_action_word(s1) {
            Some((a, s2)) => (Some(a), s2, false),
            None => (None, s, true),
        },
    }
}

/// Read the source-timestamp member, if it is present.
pub open spec fn parse_timestamp_member(s: Seq<char>, first: bool) -> (
    Option<int>,
    Seq<char>,
    bool,
) {
    match consume(s, member_key("\"source_timestamp\":"@, first)) {
        None => (None, s, first),
        Some(s1) => match parse_signed(s1) {
            Some((v, s2)) => (Some(v), s2, false),
            None => (None, s, first),
        },
    }
}

/// Read an identity-valued member under the given key, if it is present.
pub open spec fn parse_identity_member(s: Seq<char>, key: Seq<char>, first: bool) -> (
    Option<ParsedIdentity>,
    Seq<char>,
    bool,
) {
    match consume(s, member_key(key, first)) {
        None => (None, s, first),
        Some(s1) => match parse_identity(s1) {
            Some((id, s2)) => (Some(id), s2, false),
            None => (None, s, first),
        },
    }
}

/// Read a whole set of write parameters: the members in declaration order,
/// each optional, inside one object that spans the whole text.
pub open spec fn parse_params(s: Seq<char>) -> Option<ParsedParams> {
    match consume(s, "{"@) {
        None => None,
        Some(s0) => {
            let (action, s1, f1) = parse_action_member(s0);
            let (timestamp, s2, f2) = parse_timestamp_member(s1, f1);
            let (identity, s3, f3) = parse_identity_member(s2, "\"identity\":"@, f2);
            let (related, s4, f4) = parse_identity_member(
                s3,
                "\"related_sample_identity\":"@,
                f3,
            );
            match consume(s4, "}"@) {
                Some(s5) => if s5.len() == 0 {
                    Some(
                        ParsedParams {
                            action,
                            source_timestamp: timestamp,
                            identity,
                            related_sample_identity: related,
                        },
                    )
                } else {
                    None
                },
                None => None,
            }
        },
    }
}

/// The text from the related-identity member on, closing the object.
pub open spec fn tail_related(p: WriteParams, first: bool) -> Seq<char> {
    match p.related_sample_identity {
        Some(id) => member_key("\"related_sample_identity\":"@, first) + spec_identity_json(id)
            + "}"@,
        None => "}"@,
    }
}

/// The text from the identity member on.
pub open spec fn tail_identity(p: WriteParams, first: bool) -> Seq<char> {
    match p.identity {
        Some(id) => member_key("\"identity\":"@, first) + spec_identity_json(id) + tail_related(
            p,
            false,
        ),
        None => tail_related(p, first),
    }
}

/// The text from the source-timestamp member on.
pub open spec fn tail_timestamp(p: WriteParams, first: bool) -> Seq<char> {
    match p.source_timestamp {
        Some(t) => member_key("\"source_timestamp\":"@, first) + spec_dec_i64(t as int)
            + tail_identity(p, false),
        None => tail_identity(p, first),
    }
}

/// The text from the action member on.
pub open spec fn tail_action(p: WriteParams) -> Seq<char> {
    match p.action {
        Some(a) => "\"action\":"@ + spec_action_json(a) + tail_timestamp(p, false),
        None => tail_timestamp(p, true),
    }
}

/// Whether each member would be the first one marshaled.
pub open spec fn first_timestamp(p: WriteParams) -> bool {
    p.action is None
}

/// Whether the identity member would be the first one marshaled.
pub open spec fn first_identity(p: WriteParams) -> bool {
    first_timestamp(p) && p.source_timestamp is None
}

/// Whether the related-identity member would be the first one marshaled.
pub open spec fn first_related(p: WriteParams) -> bool {
    first_identity(p) && p.identity is None
}

/// The member list after the action stage.
spec fn members_action(p: WriteParams) -> Seq<Seq<char>> {
    match p.action {
        Some(a) => seq!["\"action\":"@ + spec_action_json(a)],
        None => Seq::empty(),
    }
}

/// The member list after the source-timestamp stage.
spec fn members_timestamp(p: WriteParams) -> Seq<Seq<char>> {
    match p.source_timestamp {
        Some(t) => members_action(p).push("\"source_timestamp\":"@ + spec_dec_i64(t as int)),
        None => members_action(p),
    }
}

/// The member list after the identity stage.
spec fn members_identity(p: WriteParams) -> Seq<Seq<char>> {
    match p.identity {
        Some(id) => members_timestamp(p).push("\"identity\":"@ + spec_identity_json(id)),
        None => members_timestamp(p),
    }
}

/// The action stage in place: the staged text equals the joined members so
/// far followed by the rest of the staged text.
proof fn lemma_shape_action(p: WriteParams)
    ensures
        tail_action(p) == crate::output::spec_join_comma(members_action(p)) + tail_timestamp(
            p,
            first_timestamp(p),
        ),
{
    match p.action {
        Some(a) => {
            assert(crate::output::spec_join_comma(members_action(p)) == "\"action\":"@
                + spec_action_json(a));
            assert(tail_action(p) =~= crate::output::spec_join_comma(members_action(p))
                + tail_timestamp(p, first_timestamp(p)));
        },
        None => {
            assert(crate::output::spec_join_comma(members_action(p))
                =~= Seq::<char>::empty());
            assert(tail_action(p) =~= crate::output::spec_join_comma(members_action(p))
                + tail_timestamp(p, first_timestamp(p)));
        },
    }
}

/// The source-timestamp stage in place.
proof fn lemma_shape_timestamp(p: WriteParams)
    ensures
        crate::output::spec_join_comma(members_action(p)) + tail_timestamp(
            p,
            first_timestamp(p),
        ) == crate::output::spec_join_comma(members_timestamp(p)) + tail_identity(
            p,
            first_identity(p),
        ),
{
    let j1 = crate::output::spec_join_comma(members_action(p));
    let j2 = crate::output::spec_join_comma(members_timestamp(p));
    match p.source_timestamp {
        Some(t) => {
            let m2 = "\"source_timestamp\":"@ + spec_dec_i64(t as int);
            crate::output::lemma_join_comma_push(members_action(p), m2);
            if first_timestamp(p) {
                assert(members_action(p).len() == 0);
                assert(j1 =~= Seq::<char>::empty());
                assert(j2 == m2);
            } else {
                assert(members_action(p).len() > 0);
                assert(j2 == j1 + ","@ + m2);
            }
            assert(j1 + tail_timestamp(p, first_timestamp(p)) =~= j2 + tail_identity(
                p,
                first_identity(p),
            ));
        },
        None => {},
    }
}

/// The identity stage in place.
proof fn lemma_shape_identity(p: WriteParams)
    ensures
        crate::output::spec_join_comma(members_timestamp(p)) + tail_identity(
            p,
            first_identity(p),
        ) == crate::output::spec_join_comma(members_identity(p)) + tail_related(
            p,
            first_related(p),
        ),
{
    let j2 = crate::output::spec_join_comma(members_timestamp(p));
    let j3 = crate::output::spec_join_comma(members_identity(p));
    match p.identity {
        Some(id) => {
            let m3 = "\"identity\":"@ + spec_identity_json(id);
            crate::output::lemma_join_comma_push(members_timestamp(p), m3);
            if first_identity(p) {
                assert(members_timestamp(p).len() == 0);
                assert(j2 =~= Seq::<char>::empty());
                assert(j3 == m3);
            } else {
                assert(members_timestamp(p).len() > 0);
                assert(j3 == j2 + ","@ + m3);
            }
            assert(j2 + tail_identity(p, first_identity(p)) =~= j3 + tail_related(
                p,
                first_related(p),
            ));
        },
        None => {},
    }
}

/// The related-identity stage in place, closing the object.
proof fn lemma_shape_related(p: WriteParams)
    ensures
        crate::output::spec_join_comma(members_identity(p)) + tail_related(
            p,
            first_related(p),
        ) == crate::output::spec_join_comma(spec_params_members(p)) + "}"@,
{
    let j3 = crate::output::spec_join_comma(members_identity(p));
    let j4 = crate::output::spec_join_comma(spec_params_members(p));
    assert(spec_params_members(p) == match p.related_sample_identity {
        Some(id) => members_identity(p).push(
            "\"related_sample_identity\":"@ + spec_identity_json(id),
        ),
        None => members_identity(p),
    });
    match p.related_sample_identity {
        Some(id) => {
            let m4 = "\"related_sample_identity\":"@ + spec_identity_json(id);
            crate::output::lemma_join_comma_push(members_identity(p), m4);
            if first_related(p) {
                assert(members_identity(p).len() == 0);
                assert(j3 =~= Seq::<char>::empty());
                assert(j4 == m4);
            } else {
                assert(members_identity(p).len() > 0);
                assert(j4 == j3 + ","@ + m4);
            }
            assert(j3 + tail_related(p, first_related(p)) =~= j4 + "}"@);
        },
        None => {},
    }
}

/// The marshaled object is the opening brace followed by the staged member
/// texts: what the printer joins with commas, the tails spell out in place.
proof fn lemma_params_json_shape(p: WriteParams)
    ensures
        spec_params_json(p) == "{"@ + tail_action(p),
{
    lemma_shape_action(p);
    lemma_shape_timestamp(p);
    lemma_shape_identity(p);
    lemma_shape_related(p);
    let j4 = crate::output::spec_join_comma(spec_params_members(p));
    assert(spec_params_json(p) =~= "{"@ + (j4 + "}"@));
}

/// Reading the printed action word recovers the action.
proof fn lemma_parse_action_word_print(a: WriteParamsAction, cont: Seq<char>)
    ensures
        parse_action_word(spec_action_json(a) + cont) == Some((a, cont)),
{
    reveal_strlit("\"write\"");
    reveal_strlit("\"dispose\"");
    reveal_strlit("\"unregister\"");
    match a {
        WriteParamsAction::Write => {
            lemma_consume_concat("\"write\""@, cont);
        },
        WriteParamsAction::Dispose => {
            let s = "\"dispose\""@ + cont;
            assert(s[1] == 'd');
            lemma_consume_mismatch(s, "\"write\""@, 1);
            lemma_consume_concat("\"dispose\""@, cont);
        },
        WriteParamsAction::Unregister => {
            let s = "\"unregister\""@ + cont;
            assert(s[1] == 'u');
            lemma_consume_mismatch(s, "\"write\""@, 1);
            lemma_consume_mismatch(s, "\"dispose\""@, 1);
            lemma_consume_concat("\"unregister\""@, cont);
        },
    }
}

/// A member whose key differs from another key at the second character is
/// not consumed under that other key.
proof fn lemma_reject_other_key(
    this_key: Seq<char>,
    other_key: Seq<char>,
    body: Seq<char>,
    f: bool,
)
    requires
        2 <= this_key.len(),
        2 <= other_key.len(),
        this_key[1] != other_key[1],
    ensures
        consume(member_key(this_key, f) + body, member_key(other_key, f)) is None,
{
    reveal_strlit(",");
    let s = member_key(this_key, f) + body;
    if f {
        assert(s[1] == this_key[1]);
        lemma_consume_mismatch(s, other_key, 1);
    } else {
        assert(member_key(this_key, false)[2] == this_key[1]);
        assert(s[2] == this_key[1]);
        assert(member_key(other_key, false)[2] == other_key[1]);
        lemma_consume_mismatch(s, member_key(other_key, false), 2);
    }
}

/// The closing brace is not consumed under any member key.
proof fn lemma_reject_on_close(key: Seq<char>, f: bool)
    requires
        1 <= key.len(),
        key[0] == '"',
    ensures
        consume("}"@, member_key(key, f)) is None,
{
    reveal_strlit("}");
    reveal_strlit(",");
    let s = "}"@;
    assert(s[0] == '}');
    if f {
        lemma_consume_mismatch(s, key, 0);
    } else {
        assert(member_key(key, false)[0] == ',');
        lemma_consume_mismatch(s, member_key(key, false), 0);
    }
}

/// The text from the related-identity member on never begins with a digit.
proof fn lemma_tail_related_head(p: WriteParams, f: bool)
    ensures
        tail_related(p, f).len() > 0,
        !is_digit(tail_related(p, f)[0]),
{
    reveal_strlit("}");
    reveal_strlit(",");
    reveal_strlit("\"related_sample_identity\":");
    match p.related_sample_identity {
        Some(id) => {
            if f {
                assert(tail_related(p, f)[0] == '"');
            } else {
                assert(member_key("\"related_sample_identity\":"@, false)[0] == ',');
                assert(tail_related(p, f)[0] == ',');
            }
        },
        None => {
            assert(tail_related(p, f)[0] == '}');
        },
    }
}

/// The text from the identity member on never begins with a digit.
proof fn lemma_tail_identity_head(p: WriteParams, f: bool)
    ensures
        tail_identity(p, f).len() > 0,
        !is_digit(tail_identity(p, f)[0]),
{
    reveal_strlit(",");
    reveal_strlit("\"identity\":");
    match p.identity {
        Some(id) => {
            if f {
                assert(tail_identity(p, f)[0] == '"');
            } else {
                assert(member_key("\"identity\":"@, false)[0] == ',');
                assert(tail_identity(p, f)[0] == ',');
            }
        },
        None => {
            lemma_tail_related_head(p, f);
        },
    }
}

/// Reading the staged text from the action member on recovers the action and
/// leaves the staged rest.
proof fn lemma_parse_stage_action(p: WriteParams)
    ensures
        parse_action_member(tail_action(p)) == (
            p.action,
            tail_timestamp(p, first_timestamp(p)),
            first_timestamp(p),
        ),
{
    reveal_strlit("\"action\":");
    reveal_strlit("\"source_timestamp\":");
    reveal_strlit("\"identity\":");
    reveal_strlit("\"related_sample_identity\":");
    match p.action {
        Some(a) => {
            let body = spec_action_json(a) + tail_timestamp(p, false);
            assert(tail_action(p) =~= "\"action\":"@ + body);
            lemma_consume_concat("\"action\":"@, body);
            lemma_parse_action_word_print(a, tail_timestamp(p, false));
        },
        None => {
            let s = tail_timestamp(p, true);
            match p.source_timestamp {
                Some(t) => {
                    let body = spec_dec_i64(t as int) + tail_identity(p, false);
                    assert(s =~= member_key("\"source_timestamp\":"@, true) + body);
                    lemma_reject_other_key(
                        "\"source_timestamp\":"@,
                        "\"action\":"@,
                        body,
                        true,
                    );
                },
                None => {
                    match p.identity {
                        Some(id) => {
                            let body = spec_identity_json(id) + tail_related(p, false);
                            assert(s =~= member_key("\"identity\":"@, true) + body);
                            lemma_reject_other_key(
                                "\"identity\":"@,
                                "\"action\":"@,
                                body,
                                true,
                            );
                        },
                        None => {
                            match p.related_sample_identity {
                                Some(id) => {
                                    let body = spec_identity_json(id) + "}"@;
                                    assert(s =~= member_key(
                                        "\"related_sample_identity\":"@,
                                        true,
                                    ) + body);
                                    lemma_reject_other_key(
                                        "\"related_sample_identity\":"@,
                                        "\"action\":"@,
                                        body,
                                        true,
                                    );
                                },
                                None => {
                                    assert(s =~= "}"@);
                                    lemma_reject_on_close("\"action\":"@, true);
                                },
                            }
                        },
                    }
                },
            }
        },
    }
}

/// Reading the staged text from the source-timestamp member on recovers the
/// timestamp and leaves the staged rest.
proof fn lemma_parse_stage_timestamp(p: WriteParams)
    ensures
        parse_timestamp_member(tail_timestamp(p, first_timestamp(p)), first_timestamp(p)) == (
            match p.source_timestamp {
                Some(t) => Some(t as int),
                None => None,
            },
            tail_identity(p, first_identity(p)),
            first_identity(p),
        ),
{
    reveal_strlit("\"source_timestamp\":");
    reveal_strlit("\"identity\":");
    reveal_strlit("\"related_sample_identity\":");
    let f = first_timestamp(p);
    match p.source_timestamp {
        Some(t) => {
            let body = spec_dec_i64(t as int) + tail_identity(p, false);
            assert(tail_timestamp(p, f) =~= member_key("\"source_timestamp\":"@, f) + body);
            lemma_consume_concat(member_key("\"source_timestamp\":"@, f), body);
            lemma_tail_identity_head(p, false);
            lemma_parse_signed_print(t as int, tail_identity(p, false));
        },
        None => {
            let s = tail_identity(p, f);
            match p.identity {
                Some(id) => {
                    let body = spec_identity_json(id) + tail_related(p, false);
                    assert(s =~= member_key("\"identity\":"@, f) + body);
                    lemma_reject_other_key(
                        "\"identity\":"@,
                        "\"source_timestamp\":"@,
                        body,
                        f,
                    );
                },
                None => {
                    match p.related_sample_identity {
                        Some(id) => {
                            let body = spec_identity_json(id) + "}"@;
                            assert(s =~= member_key("\"related_sample_identity\":"@, f)
                                + body);
                            lemma_reject_other_key(
                                "\"related_sample_identity\":"@,
                                "\"source_timestamp\":"@,
                                body,
                                f,
                            );
                        },
                        None => {
                            assert(s =~= "}"@);
                            lemma_reject_on_close("\"source_timestamp\":"@, f);
                        },
                    }
                },
            }
        },
    }
}

/// Reading the staged text from the identity member on recovers the identity
/// and leaves the staged rest.
proof fn lemma_parse_stage_identity(p: WriteParams)
    ensures
        parse_identity_member(
            tail_identity(p, first_identity(p)),
            "\"identity\":"@,
            first_identity(p),
        ) == (
            match p.identity {
                Some(id) => Some(identity_model(id)),
                None => None,
            },
            tail_related(p, first_related(p)),
            first_related(p),
        ),
{
    reveal_strlit("\"identity\":");
    reveal_strlit("\"related_sample_identity\":");
    let f = first_identity(p);
    match p.identity {
        Some(id) => {
            let body = spec_identity_json(id) + tail_related(p, false);
            assert(tail_identity(p, f) =~= member_key("\"identity\":"@, f) + body);
            lemma_consume_concat(member_key("\"identity\":"@, f), body);
            lemma_tail_related_head(p, false);
            lemma_identity_round_trip(id, tail_related(p, false));
        },
        None => {
            let s = tail_related(p, f);
            match p.related_sample_identity {
                Some(id) => {
                    let body = spec_identity_json(id) + "}"@;
                    assert(s =~= member_key("\"related_sample_identity\":"@, f) + body);
                    lemma_reject_other_key(
                        "\"related_sample_identity\":"@,
                        "\"identity\":"@,
                        body,
                        f,
                    );
                },
                None => {
                    assert(s =~= "}"@);
                    lemma_reject_on_close("\"identity\":"@, f);
                },
            }
        },
    }
}

/// Reading the staged text from the related-identity member on recovers the
/// identity and leaves the closing brace.
proof fn lemma_parse_stage_related(p: WriteParams)
    ensures
        parse_identity_member(
            tail_related(p, first_related(p)),
            "\"related_sample_identity\":"@,
            first_related(p),
        ) matches (rel, s, f) && rel == (match p.related_sample_identity {
            Some(id) => Some(identity_model(id)),
            None => None,
        }) && s == "}"@,
{
    reveal_strlit("}");
    reveal_strlit("\"related_sample_identity\":");
    let f = first_related(p);
    match p.related_sample_identity {
        Some(id) => {
            let body = spec_identity_json(id) + "}"@;
            assert(tail_related(p, f) =~= member_key("\"related_sample_identity\":"@, f)
                + body);
            lemma_consume_concat(member_key("\"related_sample_identity\":"@, f), body);
            assert(("}"@)[0] == '}');
            lemma_identity_round_trip(id, "}"@);
        },
        None => {
            lemma_reject_on_close("\"related_sample_identity\":"@, f);
        },
    }
}

/// Round trip: marshaling a set of write parameters to its composite form
/// and reading that form back yields the record that was marshaled — the
/// action, the timestamp and both identities survive the text exactly.
pub proof fn lemma_params_round_trip(p: WriteParams)
    ensures
        parse_params(spec_params_json(p)) == Some(params_model(p)),
{
    lemma_params_json_shape(p);
    reveal_strlit("{");
    reveal_strlit("}");
    lemma_consume_concat("{"@, tail_action(p));
    lemma_parse_stage_action(p);
    lemma_parse_stage_timestamp(p);
    lemma_parse_stage_identity(p);
    lemma_parse_stage_related(p);
    assert("}"@ =~= "}"@ + Seq::<char>::empty());
    lemma_consume_concat("}"@, Seq::empty());
}


/// Consume an expected prefix of a string, leaving the rest.
fn consume_exec<'a>(s: &'a str, prefix: &str) -> (r: Option<&'a str>)
    ensures
        r matches Some(rest) ==> consume(s@, prefix@) == Some(rest@),
        r is None ==> consume(s@, prefix@) is None,
{
    let n = s.unicode_len();
    let m = prefix.unicode_len();
    if m > n {
        return None;
    }
    let mut i: usize = 0;
    while i < m
        invariant
            i <= m,
            m <= n,
            n == s@.len(),
            m == prefix@.len(),
            forall|k: int| 0 <= k < i ==> s@[k] == prefix@[k],
        decreases m - i,
    {
        if s.get_char(i) != prefix.get_char(i) {
            proof {
                assert(s@.subrange(0, m as int)[i as int] != prefix@[i as int]);
            }
            return None;
        }
        i += 1;
    }
    proof {
        assert(s@.subrange(0, m as int) =~= prefix@);
        assert(s@.subrange(m as int, n as int) =~= s@.skip(m as int));
    }
    Some(s.substring_char(m, n))
}

/// The value a digit run reads to never falls below its accumulator.
proof fn lemma_parse_digits_lower_bound(s: Seq<char>, acc: nat)
    ensures
        parse_digits(s, acc).0 >= acc,
    decreases s.len(),
{
    if s.len() > 0 && is_digit(s[0]) {
        lemma_parse_digits_lower_bound(s.skip(1), acc * 10 + digit_val(s[0]));
    }
}

/// Read an unsigned decimal number, refusing one that overflows the
/// machine's integer width.
fn parse_number_exec<'a>(s: &'a str) -> (r: Option<(u64, &'a str)>)
    ensures
        match parse_number(s@) {
            Some((n, rest)) => {
                &&& n <= u64::MAX ==> (r matches Some(v) && v.0 == n && v.1@ == rest)
                &&& n > u64::MAX ==> r is None
            },
            None => r is None,
        },
{
    let n = s.unicode_len();
    if n == 0 {
        return None;
    }
    let first = s.get_char(0);
    if first < '0' || first > '9' {
        return None;
    }
    let mut pos: usize = 0;
    let mut acc: u64 = 0;
    proof {
        assert(s@.skip(0) =~= s@);
    }
    let mut stop = false;
    while !stop && pos < n
        invariant
            pos <= n,
            n == s@.len(),
            parse_digits(s@, 0) == parse_digits(s@.skip(pos as int), acc as nat),
            stop ==> pos < n && !is_digit(s@[pos as int]),
        decreases n - pos, (if stop { 0int } else { 1int }),
    {
        let c = s.get_char(pos);
        if c < '0' || c > '9' {
            stop = true;
            continue;
        }
        let d = (c as u32 - 48) as u64;
        proof {
            let tail = s@.skip(pos as int);
            assert(tail[0] == c);
            assert(is_digit(c));
            assert(digit_val(c) == d);
            assert(tail.skip(1) =~= s@.skip(pos as int + 1));
        }
        if acc > (u64::MAX - d) / 10 {
            proof {
                lemma_parse_digits_lower_bound(
                    s@.skip(pos as int + 1),
                    (acc as nat) * 10 + d as nat,
                );
            }
            return None;
        }
        acc = acc * 10 + d;
        pos += 1;
    }
    proof {
        let tail = s@.skip(pos as int);
        if pos < n {
            assert(tail[0] == s@[pos as int]);
            assert(!is_digit(tail[0]));
        }
        assert(parse_digits(tail, acc as nat) == (acc as nat, tail));
        assert(s@.subrange(pos as int, n as int) =~= tail);
    }
    Some((acc, s.substring_char(pos, n)))
}


/// Read an optionally negated decimal number, refusing one outside the
/// machine's signed integer width.
fn parse_signed_exec<'a>(s: &'a str) -> (r: Option<(i64, &'a str)>)
    ensures
        match parse_signed(s@) {
            Some((v, rest)) => {
                &&& i64::MIN <= v <= i64::MAX ==> (r matches Some(p) && p.0 == v && p.1@
                    == rest)
                &&& !(i64::MIN <= v <= i64::MAX) ==> r is None
            },
            None => r is None,
        },
{
    let n = s.unicode_len();
    if n > 0 && s.get_char(0) == '-' {
        proof {
            assert(s@.subrange(1, n as int) =~= s@.skip(1));
        }
        let tail = s.substring_char(1, n);
        match parse_number_exec(tail) {
            Some((m, rest)) => {
                if m <= i64::MAX as u64 {
                    Some((-(m as i64), rest))
                } else if m == 9223372036854775808u64 {
                    Some((i64::MIN, rest))
                } else {
                    None
                }
            },
            None => None,
        }
    } else {
        match parse_number_exec(s) {
            Some((m, rest)) => {
                if m <= i64::MAX as u64 {
                    Some((m as i64, rest))
                } else {
                    None
                }
            },
            None => None,
        }
    }
}

/// Read the comma-separated bytes from position `i` of a sixteen-byte list
/// into the identifier array.
fn parse_bytes_exec<'a>(s: &'a str, i: usize, guid: &mut [u8; 16]) -> (r: Option<&'a str>)
    requires
        i <= 16,
    ensures
        match parse_bytes(s@, i as int) {
            Some((bs, rest)) => r matches Some(rr) && rr@ == rest && final(guid)@ == old(
                guid,
            )@.subrange(0, i as int) + bs,
            None => r is None,
        },
    decreases 16 - i,
{
    if i >= 16 {
        proof {
            assert(old(guid)@.subrange(0, 16) + Seq::<u8>::empty() =~= old(guid)@);
        }
        return Some(s);
    }
    match parse_number_exec(s) {
        None => None,
        Some((v, s1)) => {
            if v > 255 {
                return None;
            }
            guid.set(i, v as u8);
            if i == 15 {
                proof {
                    assert(guid@ =~= old(guid)@.subrange(0, 15) + seq![v as u8]);
                }
                Some(s1)
            } else {
                match consume_exec(s1, ",") {
                    None => None,
                    Some(s2) => {
                        let ghost mid = guid@;
                        match parse_bytes_exec(s2, i + 1, guid) {
                            None => None,
                            Some(s3) => {
                                proof {
                                    let bs = parse_bytes(s2@, i + 1)->Some_0.0;
                                    assert(guid@ == mid.subrange(0, i + 1) + bs);
                                    assert(mid.subrange(0, i + 1) =~= old(guid)@.subrange(
                                        0,
                                        i as int,
                                    ) + seq![v as u8]);
                                    assert(old(guid)@.subrange(0, i as int) + (seq![v as u8]
                                        + bs) =~= guid@);
                                }
                                Some(s3)
                            },
                        }
                    },
                }
            }
        },
    }
}

/// Read a sample identity in its composite form, refusing a sequence number
/// outside the machine's integer width.
fn parse_identity_exec<'a>(s: &'a str) -> (r: Option<(WriteParamsIdentity, &'a str)>)
    ensures
        match parse_identity(s@) {
            Some((m, rest)) => {
                &&& m.sequence_number <= u64::MAX ==> (r matches Some(p) && identity_model(p.0)
                    == m && p.1@ == rest)
                &&& m.sequence_number > u64::MAX ==> r is None
            },
            None => r is None,
        },
{
    let s1 = match consume_exec(s, "{\"writer_guid\":[") {
        Some(x) => x,
        None => {
            return None;
        },
    };
    let mut guid: [u8; 16] = [0; 16];
    let s2 = match parse_bytes_exec(s1, 0, &mut guid) {
        Some(x) => x,
        None => {
            return None;
        },
    };
    let s3 = match consume_exec(s2, "],\"sequence_number\":") {
        Some(x) => x,
        None => {
            return None;
        },
    };
    let (sequence_number, s4) = match parse_number_exec(s3) {
        Some(x) => x,
        None => {
            return None;
        },
    };
    let s5 = match consume_exec(s4, "}") {
        Some(x) => x,
        None => {
            return None;
        },
    };
    proof {
        let bs = parse_bytes(s1@, 0)->Some_0.0;
        assert(guid@ =~= bs);
    }
    Some((WriteParamsIdentity { writer_guid: guid, sequence_number }, s5))
}


/// Read the action member, if present.
fn parse_action_member_exec<'a>(s: &'a str) -> (r: (Option<WriteParamsAction>, &'a str))
    ensures
        parse_action_member(s@).0 == r.0,
        parse_action_member(s@).1 == r.1@,
        parse_action_member(s@).2 == (r.0 is None),
{
    match consume_exec(s, "\"action\":") {
        None => (None, s),
        Some(s1) => {
            if let Some(s2) = consume_exec(s1, "\"write\"") {
                (Some(WriteParamsAction::Write), s2)
            } else if let Some(s2) = consume_exec(s1, "\"dispose\"") {
                (Some(WriteParamsAction::Dispose), s2)
            } else if let Some(s2) = consume_exec(s1, "\"unregister\"") {
                (Some(WriteParamsAction::Unregister), s2)
            } else {
                (None, s)
            }
        },
    }
}

/// Consume a member key, led by a comma unless it is the first member.
fn consume_key_exec<'a>(s: &'a str, bare: &str, with_comma: &str, first: bool) -> (r: Option<
    &'a str,
>)
    requires
        with_comma@ == ","@ + bare@,
    ensures
        r matches Some(rest) ==> consume(s@, member_key(bare@, first)) == Some(rest@),
        r is None ==> consume(s@, member_key(bare@, first)) is None,
{
    if first {
        consume_exec(s, bare)
    } else {
        consume_exec(s, with_comma)
    }
}

/// Read the source-timestamp member, if present; a present timestamp
/// outside the machine's signed integer width is refused outright.
fn parse_timestamp_member_exec<'a>(s: &'a str, first: bool) -> (r: Option<(Option<i64>, &'a str)>)
    ensures
        ({
            let (v, rest, f) = parse_timestamp_member(s@, first);
            match v {
                Some(t) => {
                    &&& i64::MIN <= t <= i64::MAX ==> (r matches Some(p) && (p.0 matches Some(
                        e,
                    ) && e == t) && p.1@ == rest && !f)
                    &&& !(i64::MIN <= t <= i64::MAX) ==> r is None
                },
                None => r matches Some(p) && p.0 is None && p.1@ == s@ && f == first,
            }
        }),
{
    proof {
        reveal_strlit("\"source_timestamp\":");
        reveal_strlit(",\"source_timestamp\":");
        reveal_strlit(",");
        assert((",\"source_timestamp\":")@ =~= ","@ + ("\"source_timestamp\":")@);
    }
    match consume_key_exec(s, "\"source_timestamp\":", ",\"source_timestamp\":", first) {
        None => Some((None, s)),
        Some(s1) => match parse_signed_exec(s1) {
            Some((t, s2)) => Some((Some(t), s2)),
            None => {
                if parse_signed_exists(s1) {
                    None
                } else {
                    Some((None, s))
                }
            },
        },
    }
}

/// Whether a signed number starts the text; used to tell a value outside
/// the machine's width from a missing value.
fn parse_signed_exists(s: &str) -> (r: bool)
    ensures
        r == (parse_signed(s@) is Some),
{
    let n = s.unicode_len();
    if n == 0 {
        return false;
    }
    let c = s.get_char(0);
    if c == '-' {
        proof {
            assert(s@.subrange(1, n as int) =~= s@.skip(1));
        }
        let tail = s.substring_char(1, n);
        if tail.unicode_len() == 0 {
            return false;
        }
        let d = tail.get_char(0);
        d >= '0' && d <= '9'
    } else {
        c >= '0' && c <= '9'
    }
}

/// Read an identity-valued member under the given key, if present; a
/// present sequence number outside the machine's width is refused outright.
fn parse_identity_member_exec<'a>(
    s: &'a str,
    bare: &str,
    with_comma: &str,
    first: bool,
) -> (r: Option<(Option<WriteParamsIdentity>, &'a str)>)
    requires
        with_comma@ == ","@ + bare@,
    ensures
        ({
            let (v, rest, f) = parse_identity_member(s@, bare@, first);
            match v {
                Some(m) => {
                    &&& m.sequence_number <= u64::MAX ==> (r matches Some(p) && (p.0
                        matches Some(id) && identity_model(id) == m) && p.1@ == rest && !f)
                    &&& m.sequence_number > u64::MAX ==> r is None
                },
                None => r matches Some(p) && p.0 is None && p.1@ == s@ && f == first,
            }
        }),
{
    match consume_key_exec(s, bare, with_comma, first) {
        None => Some((None, s)),
        Some(s1) => match parse_identity_exec(s1) {
            Some((id, s2)) => Some((Some(id), s2)),
            None => {
                if parse_identity_overflows(s1) {
                    None
                } else {
                    Some((None, s))
                }
            },
        },
    }
}

/// Whether an identity starts the text but its sequence number is outside
/// the machine's width; used to tell that from a missing identity.
fn parse_identity_overflows(s: &str) -> (r: bool)
    ensures
        r == (parse_identity(s@) is Some),
{
    let s1 = match consume_exec(s, "{\"writer_guid\":[") {
        Some(x) => x,
        None => {
            return false;
        },
    };
    let mut guid: [u8; 16] = [0; 16];
    let s2 = match parse_bytes_exec(s1, 0, &mut guid) {
        Some(x) => x,
        None => {
            return false;
        },
    };
    let s3 = match consume_exec(s2, "],\"sequence_number\":") {
        Some(x) => x,
        None => {
            return false;
        },
    };
    let s4 = match parse_number_digits(s3) {
        Some(x) => x,
        None => {
            return false;
        },
    };
    consume_exec(s4, "}").is_some()
}

/// Skip over an unsigned decimal number of any size, leaving the rest.
fn parse_number_digits<'a>(s: &'a str) -> (r: Option<&'a str>)
    ensures
        match parse_number(s@) {
            Some((n, rest)) => r matches Some(rr) && rr@ == rest,
            None => r is None,
        },
{
    let n = s.unicode_len();
    if n == 0 {
        return None;
    }
    let first = s.get_char(0);
    if first < '0' || first > '9' {
        return None;
    }
    let mut pos: usize = 0;
    let ghost mut acc: nat = 0;
    proof {
        assert(s@.skip(0) =~= s@);
    }
    let mut stop = false;
    while !stop && pos < n
        invariant
            pos <= n,
            n == s@.len(),
            parse_digits(s@, 0).1 == parse_digits(s@.skip(pos as int), acc).1,
            stop ==> pos < n && !is_digit(s@[pos as int]),
        decreases n - pos, (if stop { 0int } else { 1int }),
    {
        let c = s.get_char(pos);
        if c < '0' || c > '9' {
            stop = true;
            continue;
        }
        proof {
            let tail = s@.skip(pos as int);
            assert(tail[0] == c);
            assert(is_digit(c));
            assert(tail.skip(1) =~= s@.skip(pos as int + 1));
            acc = acc * 10 + digit_val(c);
        }
        pos += 1;
    }
    proof {
        let tail = s@.skip(pos as int);
        if pos < n {
            assert(tail[0] == s@[pos as int]);
            assert(!is_digit(tail[0]));
        }
        assert(parse_digits(tail, acc).1 == tail);
        assert(s@.subrange(pos as int, n as int) =~= tail);
    }
    Some(s.substring_char(pos, n))
}

/// What a parsed record must satisfy to be representable: the timestamp in
/// the signed width, the sequence numbers in the unsigned width.
pub open spec fn parsed_fits(m: ParsedParams) -> bool {
    &&& (m.source_timestamp matches Some(t) ==> i64::MIN <= t <= i64::MAX)
    &&& (m.identity matches Some(id) ==> id.sequence_number <= u64::MAX)
    &&& (m.related_sample_identity matches Some(id) ==> id.sequence_number <= u64::MAX)
}

impl WriteParams {
    /// Read a set of write parameters back from its composite form: the
    /// inverse of `to_json`. The whole text must be one parameter object;
    /// a value outside the machine's integer widths is refused.
    pub fn from_json(s: &str) -> (r: Option<WriteParams>)
        ensures
            match parse_params(s@) {
                Some(m) => {
                    &&& parsed_fits(m) ==> (r matches Some(p) && params_model(p) == m)
                    &&& !parsed_fits(m) ==> r is None
                },
                None => r is None,
            },
    {
        proof {
            reveal_strlit("\"identity\":");
            reveal_strlit(",\"identity\":");
            reveal_strlit("\"related_sample_identity\":");
            reveal_strlit(",\"related_sample_identity\":");
            reveal_strlit(",");
            assert((",\"identity\":")@ =~= ","@ + ("\"identity\":")@);
            assert((",\"related_sample_identity\":")@ =~= ","@
                + ("\"related_sample_identity\":")@);
        }
        let s0 = match consume_exec(s, "{") {
            Some(x) => x,
            None => {
                return None;
            },
        };
        let (action, s1) = parse_action_member_exec(s0);
        let first1 = action.is_none();
        let (source_timestamp, s2) = match parse_timestamp_member_exec(s1, first1) {
            Some(x) => x,
            None => {
                return None;
            },
        };
        let first2 = first1 && source_timestamp.is_none();
        let (identity, s3) = match parse_identity_member_exec(
            s2,
            "\"identity\":",
            ",\"identity\":",
            first2,
        ) {
            Some(x) => x,
            None => {
                return None;
            },
        };
        let first3 = first2 && identity.is_none();
        let (related_sample_identity, s4) = match parse_identity_member_exec(
            s3,
            "\"related_sample_identity\":",
            ",\"related_sample_identity\":",
            first3,
        ) {
            Some(x) => x,
            None => {
                return None;
            },
        };
        let s5 = match consume_exec(s4, "}") {
            Some(x) => x,
            None => {
                return None;
            },
        };
        if !s5.is_empty() {
            return None;
        }
        Some(WriteParams { action, source_timestamp, identity, related_sample_identity })
    }
}

} // verus!
