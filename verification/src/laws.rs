//! What holds of the library as a whole, across its functions.

use crate::cache::{fresh_part, is_fresh, CacheView};
use crate::check::{
    database_action, level_id_of, start_action, upstream_action, upstream_effect, CheckAction,
    LevelOutcome,
};
use crate::text::{
    all_digits, decimal, digit_char, digit_value, digits_value, is_digit, is_white_space,
    parse_signed, parse_unsigned, trim, trim_end, trim_start,
};
use crate::reply::reply_of;
use crate::upstream::has_sends;
use crate::ws::{level_ids_error, ws_action_of, WsAction, WsRequest, MAX_LEVELS_PER_REQUEST};
use crate::reply::{CachePolicy, ErrorKind};
use crate::config::setting_value;
use crate::health::{health_answer, HealthReply};
use vstd::prelude::*;

verus! {

/// Decimal writing gives at least one digit, only digits, standing for the
/// number written.
pub proof fn lemma_decimal_digits(n: nat)
    ensures
        decimal(n).len() > 0,
        all_digits(decimal(n)),
        digits_value(decimal(n)) == n,
    decreases n,
{
    if n < 10 {
        let s = decimal(n);
        assert(s =~= seq![digit_char(n)]);
        assert(s.drop_last() =~= Seq::<char>::empty());
        assert(digits_value(Seq::<char>::empty()) == 0);
        assert(digit_value(digit_char(n)) == n);
        assert(digits_value(s) == digits_value(s.drop_last()) * 10 + digit_value(s.last()));
    } else {
        lemma_decimal_digits(n / 10);
        let s = decimal(n);
        assert(s.drop_last() =~= decimal(n / 10));
        assert(digit_value(digit_char(n % 10)) == n % 10);
        assert(s.last() == digit_char(n % 10));
        assert(digits_value(s) == digits_value(s.drop_last()) * 10 + digit_value(s.last()));
        assert((n / 10) * 10 + n % 10 == n) by (nonlinear_arith);
        assert forall|i: int| 0 <= i < s.len() implies #[trigger] is_digit(s[i]) by {
            if i < s.len() - 1 {
                assert(s[i] == decimal(n / 10)[i]);
            }
        }
    }
}

proof fn lemma_digit_not_white_space(c: char)
    requires
        is_digit(c),
    ensures
        !is_white_space(c),
{
}

/// A number written in decimal has no white space to trim.
proof fn lemma_trim_decimal(n: nat)
    ensures
        trim(decimal(n)) == decimal(n),
{
    lemma_decimal_digits(n);
    let s = decimal(n);
    assert(is_digit(s[0]));
    assert(is_digit(s[s.len() - 1]));
    lemma_digit_not_white_space(s[0]);
    lemma_digit_not_white_space(s.last());
    assert(trim_start(s) == s);
    assert(trim_end(s) == s);
}

/// Reading undoes writing: the number of every level (1 to `i32::MAX`),
/// written in decimal as the upstream address carries it, is read back as
/// that level.
pub proof fn law_level_id_round_trip(n: u32)
    requires
        1 <= n <= i32::MAX,
    ensures
        level_id_of(decimal(n as nat)) == Some(n),
{
    lemma_trim_decimal(n as nat);
    lemma_decimal_digits(n as nat);
    let s = decimal(n as nat);
    assert(is_digit(s[0]));
    assert(parse_signed(s, i32::MIN as int, i32::MAX as int) == Some(n as int));
}

/// Reading undoes writing for settings too: every number up to `max`,
/// written in decimal, is read back as itself.
pub proof fn law_setting_round_trip(n: nat, max: nat)
    requires
        n <= max,
    ensures
        parse_unsigned(decimal(n), max) == Some(n),
{
    lemma_decimal_digits(n);
    let s = decimal(n);
    assert(is_digit(s[0]));
}

/// Only positive numbers name levels: a request that names a level names
/// one from 1 to `i32::MAX`.
pub proof fn law_level_ids_are_positive(raw: Seq<char>)
    ensures
        level_id_of(raw) matches Some(n) ==> 1 <= n <= i32::MAX,
{
}

/// The permanent cache only grows: whatever the upstream answer, a level
/// that was known to be sent still is.
pub proof fn law_sent_levels_stay(v: CacheView, id: u32, sends: Option<Option<usize>>, now: i64)
    ensures
        v.sent.subset_of(upstream_effect(v, id, sends, now).sent),
{
}

/// Once the upstream service lists a send for a level, the level is in the
/// permanent cache and out of the temporary one, and every later check of
/// it is answered "sent" at once, without the database or the upstream
/// service; a purge of the temporary cache does not change that.
pub proof fn law_sent_level_answered_from_cache(
    v: CacheView,
    id: u32,
    sends: Option<usize>,
    now: i64,
    later: i64,
    expiration_minutes: u32,
)
    requires
        sends matches Some(n) && n > 0,
    ensures
        ({
            let after = upstream_effect(v, id, Some(sends), now);
            &&& upstream_action(id, Some(sends)) == CheckAction::StoreSent(id)
            &&& after.sent.contains(id)
            &&& !after.not_sent.contains_key(id)
            &&& start_action(after, id) == CheckAction::Reply(LevelOutcome::Sent)
            &&& start_action(
                CacheView {
                    sent: after.sent,
                    not_sent: fresh_part(after.not_sent, later as int, expiration_minutes as int),
                },
                id,
            ) == CheckAction::Reply(LevelOutcome::Sent)
        }),
{
}

/// A level that the upstream service lists no send for is answered "not
/// sent" from the temporary cache, without asking again, as long as a purge
/// finds it younger than the expiration; the first purge that finds it as
/// old as the expiration or older drops it, and the next check asks the
/// upstream service again.
pub proof fn law_not_sent_level_expires(
    v: CacheView,
    id: u32,
    sends: Option<usize>,
    now: i64,
    purge_time: i64,
    expiration_minutes: u32,
)
    requires
        sends is None || sends == Some(0usize),
    ensures
        ({
            let after = upstream_effect(v, id, Some(sends), now);
            let purged = CacheView {
                sent: after.sent,
                not_sent: fresh_part(after.not_sent, purge_time as int, expiration_minutes as int),
            };
            &&& upstream_action(id, Some(sends)) == CheckAction::Reply(LevelOutcome::NotSent)
            &&& database_action(after, id, false) == CheckAction::Reply(LevelOutcome::NotSent)
            &&& (purge_time - now < expiration_minutes * 60 ==> database_action(purged, id, false)
                == CheckAction::Reply(LevelOutcome::NotSent))
            &&& (purge_time - now >= expiration_minutes * 60 ==> database_action(purged, id, false)
                == CheckAction::FetchUpstream(id))
        }),
{
    let after = upstream_effect(v, id, Some(sends), now);
    assert(after.not_sent.contains_key(id));
    assert(after.not_sent[id] == now);
}

/// Purging is idempotent over time: purging at `t1` and then at a later
/// `t2` leaves what a single purge at `t2` leaves.
pub proof fn law_purges_compose(not_sent: Map<u32, i64>, t1: int, t2: int, expiration_minutes: int)
    requires
        t1 <= t2,
    ensures
        fresh_part(fresh_part(not_sent, t1, expiration_minutes), t2, expiration_minutes)
            == fresh_part(not_sent, t2, expiration_minutes),
{
    assert(fresh_part(fresh_part(not_sent, t1, expiration_minutes), t2, expiration_minutes)
        =~= fresh_part(not_sent, t2, expiration_minutes));
}

/// A purge keeps exactly the levels found not sent less than the
/// expiration before it, each with its timestamp.
pub proof fn law_purge_keeps_exactly_the_fresh(
    not_sent: Map<u32, i64>,
    now: int,
    expiration_minutes: int,
    id: u32,
)
    ensures
        fresh_part(not_sent, now, expiration_minutes).contains_key(id) <==> (not_sent.contains_key(
            id,
        ) && now - not_sent[id] < expiration_minutes * 60),
        fresh_part(not_sent, now, expiration_minutes).contains_key(id) ==> fresh_part(
            not_sent,
            now,
            expiration_minutes,
        )[id] == not_sent[id],
{
}

/// The permanent and the temporary cache never share a level, where a
/// check reached the upstream service for a level that the permanent cache
/// did not hold.
pub proof fn law_caches_stay_disjoint(v: CacheView, id: u32, sends: Option<Option<usize>>, now: i64)
    requires
        forall|k: u32| v.sent.contains(k) ==> !v.not_sent.contains_key(k),
        !v.sent.contains(id),
    ensures
        ({
            let after = upstream_effect(v, id, sends, now);
            forall|k: u32| after.sent.contains(k) ==> !after.not_sent.contains_key(k)
        }),
{
}

/// Every reply to a level check carries either an error or the answer,
/// never both and never neither; it succeeds (status 200) exactly when it
/// carries the answer.
pub proof fn law_reply_carries_error_or_answer(outcome: LevelOutcome)
    ensures
        reply_of(outcome).error is Some <==> reply_of(outcome).sent is None,
        reply_of(outcome).status == 200 <==> reply_of(outcome).sent is Some,
{
}

/// A websocket request has its levels checked exactly when it names from one
/// to `MAX_LEVELS_PER_REQUEST` levels, none of them 0.
pub proof fn law_levels_checked_exactly_when_valid(ids: Seq<u32>)
    ensures
        level_ids_error(ids) is None <==> (1 <= ids.len() <= MAX_LEVELS_PER_REQUEST && forall|i: int|
            0 <= i < ids.len() ==> ids[i] != 0),
{
    if ids.contains(0) {
        let i = choose|i: int| 0 <= i < ids.len() && ids[i] == 0;
        assert(ids[i] == 0);
    }
    if !(forall|i: int| 0 <= i < ids.len() ==> ids[i] != 0) {
        let i = choose|i: int| !(0 <= i < ids.len() ==> ids[i] != 0);
        assert(ids.contains(0));
    }
}

/// Text made of white space only.
pub open spec fn all_white_space(w: Seq<char>) -> bool {
    forall|i: int| 0 <= i < w.len() ==> #[trigger] is_white_space(w[i])
}

proof fn lemma_trim_start_white_prefix(w: Seq<char>, s: Seq<char>)
    requires
        all_white_space(w),
    ensures
        trim_start(w + s) == trim_start(s),
    decreases w.len(),
{
    if w.len() == 0 {
        assert(w + s =~= s);
    } else {
        assert((w + s)[0] == w[0]);
        assert(is_white_space(w[0]));
        assert((w + s).drop_first() =~= w.drop_first() + s);
        assert(all_white_space(w.drop_first())) by {
            assert forall|i: int| 0 <= i < w.drop_first().len() implies #[trigger] is_white_space(
                w.drop_first()[i],
            ) by {
                assert(w.drop_first()[i] == w[i + 1]);
            }
        }
        lemma_trim_start_white_prefix(w.drop_first(), s);
    }
}

proof fn lemma_trim_end_white_suffix(s: Seq<char>, w: Seq<char>)
    requires
        all_white_space(w),
    ensures
        trim_end(s + w) == trim_end(s),
    decreases w.len(),
{
    if w.len() == 0 {
        assert(s + w =~= s);
    } else {
        assert((s + w).last() == w.last());
        assert(is_white_space(w[w.len() - 1]));
        assert((s + w).drop_last() =~= s + w.drop_last());
        assert(all_white_space(w.drop_last())) by {
            assert forall|i: int| 0 <= i < w.drop_last().len() implies #[trigger] is_white_space(
                w.drop_last()[i],
            ) by {
                assert(w.drop_last()[i] == w[i]);
            }
        }
        lemma_trim_end_white_suffix(s, w.drop_last());
    }
}

proof fn lemma_trim_start_of_white(w: Seq<char>)
    requires
        all_white_space(w),
    ensures
        trim_start(w).len() == 0,
{
    lemma_trim_start_white_prefix(w, Seq::<char>::empty());
    assert(w + Seq::<char>::empty() =~= w);
}

proof fn lemma_trim_start_append(s: Seq<char>, t: Seq<char>)
    ensures
        trim_start(s + t) == (if trim_start(s).len() > 0 {
            trim_start(s) + t
        } else {
            trim_start(t)
        }),
    decreases s.len(),
{
    if s.len() == 0 {
        assert(s + t =~= t);
    } else if is_white_space(s[0]) {
        assert((s + t)[0] == s[0]);
        assert((s + t).drop_first() =~= s.drop_first() + t);
        lemma_trim_start_append(s.drop_first(), t);
    } else {
        assert((s + t)[0] == s[0]);
    }
}

/// White space around a level's number changes nothing: the request names
/// the same level, or none, either way.
pub proof fn law_surrounding_white_space_is_ignored(before: Seq<char>, raw: Seq<char>, after: Seq<char>)
    requires
        all_white_space(before),
        all_white_space(after),
    ensures
        level_id_of(before + raw + after) == level_id_of(raw),
{
    assert(before + raw + after =~= before + (raw + after));
    lemma_trim_start_white_prefix(before, raw + after);
    lemma_trim_start_append(raw, after);
    if trim_start(raw).len() > 0 {
        lemma_trim_end_white_suffix(trim_start(raw), after);
    } else {
        lemma_trim_start_of_white(after);
        assert(trim_start(after) =~= trim_start(raw));
    }
    assert(trim(before + raw + after) == trim(raw));
}

/// How a whole check ends for a level that the request names, given the
/// caches, whether the database stores the level, and what would be read of
/// the upstream answer (asked only where needed).
pub open spec fn check_outcome(v: CacheView, id: u32, stored: bool, sends: Option<Option<usize>>) -> LevelOutcome {
    let first = start_action(v, id);
    let second = database_action(v, id, stored);
    let third = upstream_action(id, sends);
    match first {
        CheckAction::Reply(o) => o,
        CheckAction::StoreSent(_) => LevelOutcome::Sent,
        _ => match second {
            CheckAction::Reply(o) => o,
            CheckAction::StoreSent(_) => LevelOutcome::Sent,
            _ => match third {
                CheckAction::Reply(o) => o,
                CheckAction::StoreSent(_) => LevelOutcome::Sent,
                _ => LevelOutcome::UpstreamError,
            },
        },
    }
}

/// A level is answered "sent" exactly when the permanent cache holds it, or
/// the database stores it, or (the temporary cache not holding it) the
/// upstream service lists a send for it; "not sent" exactly when neither
/// cache nor database knows it as sent and either the temporary cache holds
/// it or the upstream answer lists no send; and an error only where the
/// upstream service had to be asked and could not be read.
pub proof fn law_check_outcome(v: CacheView, id: u32, stored: bool, sends: Option<Option<usize>>)
    ensures
        (check_outcome(v, id, stored, sends) == LevelOutcome::Sent) <==> (v.sent.contains(id)
            || stored || (!v.not_sent.contains_key(id) && (sends matches Some(Some(n)) && n > 0))),
        (check_outcome(v, id, stored, sends) == LevelOutcome::NotSent) <==> (!v.sent.contains(id)
            && !stored && (v.not_sent.contains_key(id) || sends == Some(Option::<usize>::None)
            || sends == Some(Some(0usize)))),
        (check_outcome(v, id, stored, sends) == LevelOutcome::UpstreamError) <==> (!v.sent.contains(
            id) && !stored && !v.not_sent.contains_key(id) && sends is None),
        check_outcome(v, id, stored, sends) != LevelOutcome::InvalidId,
{
}

/// The first step of a check asks nothing of a level that the permanent
/// cache holds (it is sent), and for any other level asks the database about
/// that very level: it never stores, fetches or answers it by itself.
pub proof fn law_first_step_asks_the_database(v: CacheView, id: u32)
    ensures
        v.sent.contains(id) ==> start_action(v, id) == CheckAction::Reply(LevelOutcome::Sent),
        !v.sent.contains(id) ==> start_action(v, id) == CheckAction::QueryDatabase(id),
{
}

/// After the database: a stored level is sent; else one in the temporary
/// cache is not sent; else the upstream service is asked about that very
/// level. The database step never stores a level by itself.
pub proof fn law_database_step(v: CacheView, id: u32, stored: bool)
    ensures
        stored ==> database_action(v, id, stored) == CheckAction::Reply(LevelOutcome::Sent),
        !stored && v.not_sent.contains_key(id) ==> database_action(v, id, stored)
            == CheckAction::Reply(LevelOutcome::NotSent),
        !stored && !v.not_sent.contains_key(id) ==> database_action(v, id, stored)
            == CheckAction::FetchUpstream(id),
{
}

/// A level is stored as sent exactly when the upstream answer lists at least
/// one send (any number of them); an answer with an empty, missing or
/// non-array `sends` means not sent; an unreadable answer is an error.
pub proof fn law_upstream_step(v: CacheView, id: u32, sends: Option<Option<usize>>, now: i64)
    ensures
        sends is None ==> upstream_action(id, sends) == CheckAction::Reply(LevelOutcome::UpstreamError),
        sends is None ==> upstream_effect(v, id, sends, now) == v,
        (sends matches Some(Some(n)) && n >= 1) ==> upstream_action(id, sends) == CheckAction::StoreSent(id),
        (sends matches Some(Some(n)) && n >= 1) ==> upstream_effect(v, id, sends, now) == (CacheView {
            sent: v.sent.insert(id),
            not_sent: v.not_sent.remove(id),
        }),
        (sends == Some(Option::<usize>::None) || sends == Some(Some(0usize))) ==> upstream_action(id, sends)
            == CheckAction::Reply(LevelOutcome::NotSent),
        (sends == Some(Option::<usize>::None) || sends == Some(Some(0usize))) ==> upstream_effect(
            v,
            id,
            sends,
            now,
        ) == (CacheView { sent: v.sent, not_sent: v.not_sent.insert(id, now) }),
{
}

/// A sends array means sent exactly when it has at least one entry; no array
/// never means sent.
pub proof fn law_sent_means_a_nonempty_sends_array(n: usize)
    ensures
        has_sends(Some(n)) <==> n >= 1,
        !has_sends(None),
{
}

/// A websocket message is answered by its kind: status and statistics as
/// asked; a level request is checked exactly when it names from one to
/// `MAX_LEVELS_PER_REQUEST` levels, none of them 0, and else refused with
/// "Invalid level ID(s)" (no level, or level 0) or "too many"; a message that
/// is no request is refused as such.
pub proof fn law_ws_answers(ids: Vec<u32>)
    ensures
        ws_action_of(None) == WsAction::RejectRequest,
        ws_action_of(Some(WsRequest::Status)) == WsAction::ReplyStatus,
        ws_action_of(Some(WsRequest::Stats)) == WsAction::ReplyStats,
        (ws_action_of(Some(WsRequest::Level { ids })) == WsAction::CheckLevels) <==> (1 <= ids@.len()
            <= 50 && forall|i: int| 0 <= i < ids@.len() ==> ids@[i] != 0),
        (ids@.len() == 0 || ids@.contains(0)) ==> ws_action_of(Some(WsRequest::Level { ids }))
            == WsAction::RejectLevels(ErrorKind::InvalidLevelIds),
        (ids@.len() > 50 && !ids@.contains(0)) ==> ws_action_of(Some(WsRequest::Level { ids }))
            == WsAction::RejectLevels(ErrorKind::TooManyLevels),
{
    law_levels_checked_exactly_when_valid(ids@);
}

/// The replies, outcome by outcome: sent and not sent succeed (200) with
/// `sent` true and false and their caching headers; an upstream failure is a
/// 500 "Unknown Error"; an invalid identifier a 400 "Invalid level_id".
pub proof fn law_replies(outcome: LevelOutcome)
    ensures
        outcome == LevelOutcome::Sent ==> reply_of(outcome).status == 200 && reply_of(outcome).sent
            == Some(true) && reply_of(outcome).cache == CachePolicy::SentLevel,
        outcome == LevelOutcome::NotSent ==> reply_of(outcome).status == 200 && reply_of(
            outcome,
        ).sent == Some(false) && reply_of(outcome).cache == CachePolicy::NotSentLevel,
        outcome == LevelOutcome::UpstreamError ==> reply_of(outcome).status == 500 && reply_of(
            outcome,
        ).error == Some(ErrorKind::UnknownError),
        outcome == LevelOutcome::InvalidId ==> reply_of(outcome).status == 400 && reply_of(
            outcome,
        ).error == Some(ErrorKind::InvalidLevelId),
{
}

/// A setting whose text parses is used as it parses, whatever the value
/// (0 included); the default stands only where the text is unset or does not
/// parse.
pub proof fn law_parsed_settings_are_used(text: Option<String>, max: nat, default: nat)
    ensures
        (text matches Some(t) && parse_unsigned(t@, max) matches Some(n)) ==> setting_value(
            text,
            max,
            default,
        ) == parse_unsigned(text->0@, max)->0,
        text is None ==> setting_value(text, max, default) == default,
        (text matches Some(t) && parse_unsigned(t@, max) is None) ==> setting_value(
            text,
            max,
            default,
        ) == default,
{
}

/// Every setting written in decimal within its range is read as written,
/// zero included.
pub proof fn law_written_settings_are_read_back(n: nat, max: nat, default: nat, text: String)
    requires
        n <= max,
        text@ == decimal(n),
    ensures
        setting_value(Some(text), max, default) == n,
{
    law_setting_round_trip(n, max);
}

/// The health answer is that of the roll drawn: the soggy picture exactly
/// when the roll is 1, the banner for every other roll.
pub proof fn law_health_answer_of_roll(roll: u32)
    ensures
        roll == 1 ==> health_answer(roll) == HealthReply::Soggy,
        roll != 1 ==> health_answer(roll) == HealthReply::Banner,
{
}

proof fn lemma_trim_end_keeps_first(x: Seq<char>)
    requires
        x.len() > 0,
        !is_white_space(x[0]),
    ensures
        trim_end(x).len() > 0,
        trim_end(x)[0] == x[0],
    decreases x.len(),
{
    if is_white_space(x.last()) {
        assert(x.len() > 1);
        assert(x.drop_last()[0] == x[0]);
        lemma_trim_end_keeps_first(x.drop_last());
    }
}

proof fn lemma_leading_zero_value(d: Seq<char>)
    ensures
        digits_value(seq!['0'] + d) == digits_value(d),
    decreases d.len(),
{
    if d.len() == 0 {
        let z = seq!['0'] + d;
        assert(z =~= seq!['0']);
        assert(z.drop_last() =~= Seq::<char>::empty());
        assert(digits_value(z) == digits_value(z.drop_last()) * 10 + digit_value(z.last()));
    } else {
        let z = seq!['0'] + d;
        assert(z.drop_last() =~= seq!['0'] + d.drop_last());
        assert(z.last() == d.last());
        lemma_leading_zero_value(d.drop_last());
    }
}

/// A plus sign or a leading zero before a level's number changes nothing:
/// `+n` and `0n` name level `n` as `n` does.
pub proof fn law_plus_sign_and_leading_zero(n: u32)
    requires
        1 <= n <= i32::MAX,
    ensures
        level_id_of(seq!['+'] + decimal(n as nat)) == Some(n),
        level_id_of(seq!['0'] + decimal(n as nat)) == Some(n),
{
    lemma_decimal_digits(n as nat);
    let d = decimal(n as nat);
    assert(is_digit(d[d.len() - 1]));
    lemma_digit_not_white_space(d.last());
    let p = seq!['+'] + d;
    assert(p[0] == '+');
    assert(p.last() == d.last());
    assert(trim_start(p) == p);
    assert(trim_end(p) == p);
    assert(p.drop_first() =~= d);
    assert(parse_signed(p, i32::MIN as int, i32::MAX as int) == Some(n as int));
    let z = seq!['0'] + d;
    assert(z[0] == '0');
    lemma_digit_not_white_space(z[0]);
    assert(z.last() == d.last());
    assert(trim_start(z) == z);
    assert(trim_end(z) == z);
    lemma_leading_zero_value(d);
    assert(all_digits(z)) by {
        assert forall|i: int| 0 <= i < z.len() implies #[trigger] is_digit(z[i]) by {
            if i > 0 {
                assert(z[i] == d[i - 1]);
            }
        }
    }
    assert(parse_signed(z, i32::MIN as int, i32::MAX as int) == Some(n as int));
}

/// A number with a minus sign never names a level, whatever follows it.
pub proof fn law_minus_sign_names_no_level(s: Seq<char>)
    ensures
        level_id_of(seq!['-'] + s) is None,
{
    let x = seq!['-'] + s;
    assert(x[0] == '-');
    assert(trim_start(x) == x);
    lemma_trim_end_keeps_first(x);
}

} // verus!
