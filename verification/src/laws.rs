//! Properties that hold across the library's functions.
use vstd::prelude::*;

use crate::config::{
    u64_setting, usize_setting, user_ids, user_ids_from, workdir_result, EnvValue, WorkdirProbe,
};
use crate::envfile::{
    assigns, entry, join_lines, lines, lines_from, rewrite_line, strip_cr, updated_env_content,
    updated_lines,
};
use crate::platform::telegram::{
    command_argument, command_name, command_result_text, exit_status_text, requested,
    service_help_text, RequestView,
};
use crate::terminal::{apply_change, CommandResult, SettingChange, TerminalService};
use crate::text::{
    all_digits, back_white_from, decimal, digit_char, digit_value, digits_value, find_from,
    has_prefix, is_digit, is_white, parsed_u64, parsed_usize, skip_white_from, trim_start,
    trimmed, truncated, truncation_marker, unsigned_digits, white_from,
};

verus! {

// ---------------------------------------------------------------------------
// Numbers
// ---------------------------------------------------------------------------

proof fn lemma_decimal_digits(n: nat)
    ensures
        decimal(n).len() > 0,
        all_digits(decimal(n)),
        digits_value(decimal(n)) == n,
    decreases n,
{
    let d = decimal(n);
    if n < 10 {
        assert(d.drop_last() =~= Seq::<char>::empty());
        assert(d.last() == digit_char(n as int));
        assert(digit_value(digit_char(n as int)) == n);
        assert(digits_value(d) == digits_value(d.drop_last()) * 10 + digit_value(d.last()));
    } else {
        lemma_decimal_digits(n / 10);
        let p = decimal(n / 10);
        assert(d.drop_last() =~= p);
        assert(d.last() == digit_char((n % 10) as int));
        assert(digit_value(digit_char((n % 10) as int)) == n % 10);
        assert(n / 10 * 10 + n % 10 == n) by (nonlinear_arith);
        assert(digits_value(d) == digits_value(d.drop_last()) * 10 + digit_value(d.last()));
        assert forall|i: int| 0 <= i < d.len() implies is_digit(#[trigger] d[i]) by {
            if i < p.len() {
                assert(d[i] == p[i]);
            }
        }
    }
}

/// Digits are no whitespace, so a decimal number is its own trimmed form.
proof fn lemma_decimal_trimmed(n: nat)
    ensures
        trimmed(decimal(n)) == decimal(n),
{
    let d = decimal(n);
    lemma_decimal_digits(n);
    assert(is_digit(d[0]));
    assert(is_digit(d[d.len() - 1]));
    assert(!is_white(d[0]));
    assert(!is_white(d[d.len() - 1]));
    assert(skip_white_from(d, 0) == 0);
    assert(back_white_from(d, 0, d.len() as int) == d.len());
    assert(d.subrange(0, d.len() as int) =~= d);
}

/// A number written in decimal, as an update stores it, reads back as the
/// same number when the setting is parsed (trimmed, as a `u64`).
pub proof fn law_decimal_reads_back_u64(n: u64)
    ensures
        parsed_u64(trimmed(decimal(n as nat))) == Some(n),
{
    let d = decimal(n as nat);
    lemma_decimal_digits(n as nat);
    lemma_decimal_trimmed(n as nat);
    assert(is_digit(d[0]));
    assert(d[0] != '+');
    assert(unsigned_digits(d) == d);
}

/// The same for a size: the decimal form of a `usize` reads back as itself.
pub proof fn law_decimal_reads_back_usize(n: usize)
    ensures
        parsed_usize(trimmed(decimal(n as nat))) == Some(n),
{
    law_decimal_reads_back_u64(n as u64);
}

// ---------------------------------------------------------------------------
// Truncation
// ---------------------------------------------------------------------------

/// Cutting a text down keeps at most `limit` of its characters, in order,
/// from its start, adds the 15 characters of the marker only when something
/// was cut, and leaves a text within the limit as it is.
pub proof fn law_truncation_bounded(s: Seq<char>, limit: nat)
    ensures
        truncated(s, limit).len() <= limit + 15,
        s.len() <= limit ==> truncated(s, limit) == s,
        s.len() > limit ==> truncated(s, limit).take(limit as int) == s.take(limit as int),
        s.len() > limit ==> truncated(s, limit).len() == limit + 15,
{
    reveal_strlit("\n...[truncated]");
    assert(truncation_marker().len() == 15);
    if s.len() > limit {
        assert(truncated(s, limit).take(limit as int) =~= s.take(limit as int));
    }
}

// ---------------------------------------------------------------------------
// The env file
// ---------------------------------------------------------------------------

proof fn lemma_join_front(l0: Seq<char>, rest: Seq<Seq<char>>)
    requires
        rest.len() > 0,
    ensures
        join_lines(seq![l0] + rest) == l0 + seq!['\n'] + join_lines(rest),
    decreases rest.len(),
{
    let all = seq![l0] + rest;
    if rest.len() == 1 {
        assert(all.drop_last() =~= seq![l0]);
        assert(all.last() == rest[0]);
        assert(join_lines(seq![l0]) == l0);
        assert(join_lines(rest) == rest[0]);
        assert(join_lines(all) == join_lines(all.drop_last()) + seq!['\n'] + all.last());
    } else {
        lemma_join_front(l0, rest.drop_last());
        assert(all.drop_last() =~= seq![l0] + rest.drop_last());
        assert(all.last() == rest.last());
        assert(join_lines(all) == join_lines(all.drop_last()) + seq!['\n'] + all.last());
        assert(join_lines(rest) == join_lines(rest.drop_last()) + seq!['\n'] + rest.last());
        assert(l0 + seq!['\n'] + join_lines(rest.drop_last()) + seq!['\n'] + rest.last()
            =~= l0 + seq!['\n'] + (join_lines(rest.drop_last()) + seq!['\n'] + rest.last()));
    }
}

/// `find_from` stops at the first `c` from `i` on.
proof fn lemma_find_first(s: Seq<char>, c: char, i: int, n: int)
    requires
        0 <= i <= n < s.len(),
        s[n] == c,
        forall|j: int| i <= j < n ==> s[j] != c,
    ensures
        find_from(s, c, i) == n,
    decreases n - i,
{
    if i < n {
        lemma_find_first(s, c, i + 1, n);
    }
}

/// A line of a file's text: no `\n` in it, and no `\r` at its end.
pub open spec fn plain_line(l: Seq<char>) -> bool {
    &&& forall|i: int| 0 <= i < l.len() ==> l[i] != '\n'
    &&& !(l.len() > 0 && l.last() == '\r')
}

proof fn lemma_lines_of_joined(p: Seq<char>, ls: Seq<Seq<char>>)
    requires
        ls.len() > 0,
        forall|i: int| 0 <= i < ls.len() ==> plain_line(#[trigger] ls[i]),
    ensures
        lines_from(p + join_lines(ls) + seq!['\n'], p.len() as int) == ls,
    decreases ls.len(),
{
    let l0 = ls[0];
    assert(plain_line(ls[0]));
    let pos = p.len() as int;
    if ls.len() == 1 {
        let s = p + l0 + seq!['\n'];
        assert(join_lines(ls) == l0);
        assert(s[pos + l0.len()] == '\n');
        assert forall|i: int| pos <= i < pos + l0.len() implies s[i] != '\n' by {
            assert(s[i] == l0[i - pos]);
        }
        lemma_find_first(s, '\n', pos, pos + l0.len());
        assert(s.subrange(pos, pos + l0.len()) =~= l0);
        assert(strip_cr(l0) == l0);
        assert(lines_from(s, pos + l0.len() + 1) =~= Seq::<Seq<char>>::empty());
        assert(lines_from(s, pos) =~= seq![l0]);
        assert(ls =~= seq![l0]);
    } else {
        let rest = ls.drop_first();
        assert(ls =~= seq![l0] + rest);
        lemma_join_front(l0, rest);
        let p2 = p + l0 + seq!['\n'];
        let s = p2 + join_lines(rest) + seq!['\n'];
        assert(p + join_lines(ls) + seq!['\n'] =~= s);
        assert(s[pos + l0.len()] == '\n');
        assert forall|i: int| pos <= i < pos + l0.len() implies s[i] != '\n' by {
            assert(s[i] == l0[i - pos]);
        }
        lemma_find_first(s, '\n', pos, pos + l0.len());
        assert(s.subrange(pos, pos + l0.len()) =~= l0);
        assert(strip_cr(l0) == l0);
        assert forall|i: int| 0 <= i < rest.len() implies plain_line(#[trigger] rest[i]) by {
            assert(rest[i] == ls[i + 1]);
        }
        lemma_lines_of_joined(p2, rest);
        assert(p2.len() == pos + l0.len() + 1);
        assert(lines_from(s, pos) =~= seq![l0] + rest);
    }
}

/// Reading back the lines of the file that an update wrote gives exactly the
/// updated lines, when those are plain lines (the key and value hold no
/// `\n`, and no line ends with `\r`).
pub proof fn law_env_update_reads_back(existing: Seq<char>, key: Seq<char>, value: Seq<char>)
    requires
        forall|i: int|
            0 <= i < updated_lines(existing, key, value).len() ==> plain_line(
                #[trigger] updated_lines(existing, key, value)[i],
            ),
    ensures
        lines(updated_env_content(existing, key, value)) == updated_lines(existing, key, value),
{
    let ls = updated_lines(existing, key, value);
    let ol = lines(existing);
    let rewritten = ol.map_values(|l: Seq<char>| rewrite_line(l, key, value));
    if !(exists|i: int| 0 <= i < ol.len() && assigns(#[trigger] ol[i], key)) {
        assert(ls == rewritten.push(entry(key, value)));
    }
    let body = join_lines(ls);
    if exists|i: int| 0 <= i < ol.len() && assigns(#[trigger] ol[i], key) {
        let i = choose|i: int| 0 <= i < ol.len() && assigns(#[trigger] ol[i], key);
        assert(ls[i] == entry(key, value));
    }
    assert(ls.len() > 0);
    lemma_join_nonempty(ls);
    assert(body.len() > 0);
    lemma_lines_of_joined(Seq::empty(), ls);
    assert(Seq::<char>::empty() + body + seq!['\n'] =~= body.push('\n'));
}

proof fn lemma_join_nonempty(ls: Seq<Seq<char>>)
    requires
        ls.len() > 0,
        exists|i: int| 0 <= i < ls.len() && ls[i].len() > 0,
    ensures
        join_lines(ls).len() > 0,
    decreases ls.len(),
{
    if ls.len() > 1 {
        if ls.last().len() == 0 {
            let i = choose|i: int| 0 <= i < ls.len() && ls[i].len() > 0;
            assert(ls.drop_last()[i].len() > 0);
            lemma_join_nonempty(ls.drop_last());
        }
    }
}

/// After an update every line that assigns the key is `key=value`, and such
/// a line is there.
pub proof fn law_env_update_assigns(existing: Seq<char>, key: Seq<char>, value: Seq<char>)
    ensures
        exists|i: int|
            0 <= i < updated_lines(existing, key, value).len() && #[trigger] updated_lines(
                existing,
                key,
                value,
            )[i] == entry(key, value),
        forall|i: int|
            0 <= i < updated_lines(existing, key, value).len() && assigns(
                #[trigger] updated_lines(existing, key, value)[i],
                key,
            ) ==> updated_lines(existing, key, value)[i] == entry(key, value),
{
    let ls = updated_lines(existing, key, value);
    let ol = lines(existing);
    let rewritten = ol.map_values(|l: Seq<char>| rewrite_line(l, key, value));
    if exists|i: int| 0 <= i < ol.len() && assigns(#[trigger] ol[i], key) {
        let i = choose|i: int| 0 <= i < ol.len() && assigns(#[trigger] ol[i], key);
        assert(ls[i] == entry(key, value));
    } else {
        assert(ls[ol.len() as int] == entry(key, value));
    }
}


/// Setting a key to the same value twice leaves the file as setting it once
/// did, when the updated lines are plain and the key does not begin with
/// whitespace.
pub proof fn law_env_update_idempotent(existing: Seq<char>, key: Seq<char>, value: Seq<char>)
    requires
        forall|i: int|
            0 <= i < updated_lines(existing, key, value).len() ==> plain_line(
                #[trigger] updated_lines(existing, key, value)[i],
            ),
        key.len() == 0 || !is_white(key[0]),
    ensures
        updated_env_content(updated_env_content(existing, key, value), key, value)
            == updated_env_content(existing, key, value),
{
    let c1 = updated_env_content(existing, key, value);
    let l1 = updated_lines(existing, key, value);
    law_env_update_reads_back(existing, key, value);
    law_env_update_assigns(existing, key, value);
    let e = entry(key, value);
    assert(e[0] == if key.len() == 0 { '=' } else { key[0] });
    assert(skip_white_from(e, 0) == 0);
    assert(trim_start(e) =~= e);
    assert(e.take(key.push('=').len() as int) =~= key.push('='));
    assert(assigns(e, key));
    let rewritten = l1.map_values(|l: Seq<char>| rewrite_line(l, key, value));
    assert(rewritten =~= l1);
    let i = choose|i: int| 0 <= i < l1.len() && #[trigger] l1[i] == e;
    assert(assigns(lines(c1)[i], key));
    assert(updated_lines(c1, key, value) == l1);
}


// ---------------------------------------------------------------------------
// The list of users
// ---------------------------------------------------------------------------

proof fn lemma_find_shift(p: Seq<char>, b: Seq<char>, c: char, i: int)
    requires
        0 <= i <= b.len(),
    ensures
        find_from(p + b, c, p.len() + i) == p.len() + find_from(b, c, i),
    decreases b.len() - i,
{
    if i < b.len() {
        assert((p + b)[p.len() + i] == b[i]);
        if b[i] != c {
            lemma_find_shift(p, b, c, i + 1);
        }
    }
}

proof fn lemma_find_at_most(s: Seq<char>, c: char, i: int)
    requires
        0 <= i <= s.len(),
    ensures
        i <= find_from(s, c, i) <= s.len(),
    decreases s.len() - i,
{
    if i < s.len() && s[i] != c {
        lemma_find_at_most(s, c, i + 1);
    }
}

proof fn lemma_user_ids_shift(p: Seq<char>, b: Seq<char>, i: int)
    requires
        0 <= i <= b.len(),
    ensures
        user_ids_from(p + b, p.len() + i) == user_ids_from(b, i),
    decreases b.len() - i,
{
    let s = p + b;
    lemma_find_shift(p, b, ',', i);
    lemma_find_at_most(b, ',', i);
    let k = find_from(b, ',', i);
    assert(s.subrange(p.len() + i, p.len() + k) =~= b.subrange(i, k));
    if k < b.len() {
        lemma_user_ids_shift(p, b, k + 1);
    }
}

proof fn lemma_find_none(s: Seq<char>, c: char, i: int)
    requires
        0 <= i <= s.len(),
        forall|j: int| i <= j < s.len() ==> s[j] != c,
    ensures
        find_from(s, c, i) == s.len(),
    decreases s.len() - i,
{
    if i < s.len() {
        lemma_find_none(s, c, i + 1);
    }
}

/// The users of two lists joined by a comma: the users of both, or the
/// error of the first list that has one.
pub open spec fn joined_ids(first: Result<Set<u64>, Seq<char>>, second: Result<Set<u64>, Seq<char>>) -> Result<
    Set<u64>,
    Seq<char>,
> {
    match first {
        Err(e) => Err(e),
        Ok(a) => match second {
            Err(e) => Err(e),
            Ok(b) => Ok(a.union(b)),
        },
    }
}

/// A list of users is read entry by entry: the users of `a,b` (for an
/// entry `a` without a comma) are those of `a` together with those of `b`,
/// and the first entry that is no user id is the error.
pub proof fn law_user_ids_split(a: Seq<char>, b: Seq<char>)
    requires
        forall|j: int| 0 <= j < a.len() ==> a[j] != ',',
    ensures
        user_ids(a + seq![','] + b) == joined_ids(user_ids(a), user_ids(b)),
{
    let p = a + seq![','];
    let s = p + b;
    lemma_find_none(a, ',', 0);
    assert(s[a.len() as int] == ',');
    assert forall|j: int| 0 <= j < a.len() implies s[j] != ',' by {
        assert(s[j] == a[j]);
    }
    lemma_find_first(s, ',', 0, a.len() as int);
    assert(s.subrange(0, a.len() as int) =~= a);
    assert(a.subrange(0, a.len() as int) =~= a);
    lemma_user_ids_shift(p, b, 0);
    assert(p.len() == a.len() + 1);
    let item = trimmed(a);
    match parsed_u64(item) {
        Some(n) => match user_ids(b) {
            Ok(ids) => {
                assert(Set::<u64>::empty().insert(n).union(ids) =~= ids.insert(n));
            },
            Err(_) => {},
        },
        None => {},
    }
    if item.len() == 0 {
        match user_ids(b) {
            Ok(ids) => {
                assert(Set::<u64>::empty().union(ids) =~= ids);
            },
            Err(_) => {},
        }
    }
}


// ---------------------------------------------------------------------------
// Requests
// ---------------------------------------------------------------------------

proof fn lemma_white_first(s: Seq<char>, i: int, n: int)
    requires
        0 <= i <= n <= s.len(),
        n == s.len() || is_white(s[n]),
        forall|j: int| i <= j < n ==> !is_white(s[j]),
    ensures
        white_from(s, i) == n,
    decreases n - i,
{
    if i < n {
        lemma_white_first(s, i + 1, n);
    }
}

proof fn lemma_trimmed_plain(t: Seq<char>)
    requires
        t.len() > 0,
        !is_white(t[0]),
        !is_white(t.last()),
    ensures
        trimmed(t) == t,
{
    assert(skip_white_from(t, 0) == 0);
    assert(back_white_from(t, 0, t.len() as int) == t.len());
    assert(t.subrange(0, t.len() as int) =~= t);
}

/// The name of the bot after `@` in a command word changes nothing: the
/// message `/cmd@bot rest` makes the request that `/cmd rest` makes (for a
/// trimmed message whose command word has no `@` and does not begin with
/// `!run`).
pub proof fn law_bot_name_ignored(name: Seq<char>, bot: Seq<char>, rest: Seq<char>)
    requires
        name.len() > 0,
        forall|j: int| 0 <= j < name.len() ==> !is_white(#[trigger] name[j]) && name[j] != '@',
        forall|j: int| 0 <= j < bot.len() ==> !is_white(#[trigger] bot[j]),
        rest.len() == 0 || is_white(rest[0]),
        rest.len() == 0 || !is_white(rest.last()),
        !has_prefix(name, "!run"@),
    ensures
        requested(name + seq!['@'] + bot + rest) == requested(name + rest),
{
    reveal_strlit("!run");
    let head1 = name + seq!['@'] + bot;
    let t1 = head1 + rest;
    let t2 = name + rest;
    let k1 = head1.len() as int;
    let k2 = name.len() as int;
    // Both messages are trimmed already.
    assert(t1[0] == name[0]);
    assert(t2[0] == name[0]);
    if rest.len() > 0 {
        assert(t1.last() == rest.last());
        assert(t2.last() == rest.last());
    } else {
        assert(t2.last() == name.last());
        if bot.len() > 0 {
            assert(t1.last() == bot.last());
        } else {
            assert(t1.last() == '@');
            assert(!is_white('@'));
        }
    }
    lemma_trimmed_plain(t1);
    lemma_trimmed_plain(t2);
    // Neither begins with `!run`.
    let run = "!run"@;
    if name.len() >= 4 {
        assert(t1.take(4) =~= name.take(4));
        assert(t2.take(4) =~= name.take(4));
    } else {
        assert(t1[k2] == '@');
        if has_prefix(t1, run) {
            assert(t1.take(4)[k2] == run[k2]);
        }
        if has_prefix(t2, run) {
            assert(t2.take(4)[k2] == run[k2]);
            assert(t2[k2] == rest[0]);
        }
    }
    assert(!has_prefix(t1, run));
    assert(!has_prefix(t2, run));
    // The first word ends where `rest` begins.
    assert forall|j: int| 0 <= j < k1 implies !is_white(t1[j]) by {
        if j < k2 {
            assert(t1[j] == name[j]);
        } else if j == k2 {
            assert(t1[j] == '@');
        } else {
            assert(t1[j] == bot[j - k2 - 1]);
        }
    }
    if rest.len() > 0 {
        assert(t1[k1] == rest[0]);
        assert(t2[k2] == rest[0]);
    }
    lemma_white_first(t1, 0, k1);
    assert forall|j: int| 0 <= j < k2 implies !is_white(t2[j]) by {
        assert(t2[j] == name[j]);
    }
    lemma_white_first(t2, 0, k2);
    // The command names agree.
    assert(t1.take(k1) =~= head1);
    assert(t2.take(k2) =~= name);
    assert forall|j: int| 0 <= j < k2 implies head1[j] != '@' by {
        assert(head1[j] == name[j]);
    }
    lemma_find_first(head1, '@', 0, k2);
    lemma_find_none(name, '@', 0);
    assert(head1.take(k2) =~= name);
    assert(name.take(k2) =~= name);
    assert(command_name(t1) == command_name(t2));
    // So do the arguments.
    if rest.len() > 0 {
        assert(t1.skip(k1 + 1) =~= rest.skip(1));
        assert(t2.skip(k2 + 1) =~= rest.skip(1));
    }
    assert(command_argument(t1) == command_argument(t2));
}


// ---------------------------------------------------------------------------
// Settings over time
// ---------------------------------------------------------------------------

/// The values of the settings after the changes of successive committed
/// updates, the first change first.
pub open spec fn settings_after(start: (Seq<char>, u64, usize), changes: Seq<SettingChange>) -> (
    Seq<char>,
    u64,
    usize,
)
    decreases changes.len(),
{
    if changes.len() == 0 {
        start
    } else {
        apply_change(settings_after(start, changes.drop_last()), changes.last())
    }
}

/// The working directory of the latest change that sets one, or `default`.
pub open spec fn latest_workdir(changes: Seq<SettingChange>, default: Seq<char>) -> Seq<char>
    decreases changes.len(),
{
    if changes.len() == 0 {
        default
    } else {
        match changes.last() {
            SettingChange::Workdir(d) => d@,
            _ => latest_workdir(changes.drop_last(), default),
        }
    }
}

/// The timeout of the latest change that sets one, or `default`.
pub open spec fn latest_timeout(changes: Seq<SettingChange>, default: u64) -> u64
    decreases changes.len(),
{
    if changes.len() == 0 {
        default
    } else {
        match changes.last() {
            SettingChange::Timeout(t) => t,
            _ => latest_timeout(changes.drop_last(), default),
        }
    }
}

/// The output limit of the latest change that sets one, or `default`.
pub open spec fn latest_max_output(changes: Seq<SettingChange>, default: usize) -> usize
    decreases changes.len(),
{
    if changes.len() == 0 {
        default
    } else {
        match changes.last() {
            SettingChange::MaxOutput(m) => m,
            _ => latest_max_output(changes.drop_last(), default),
        }
    }
}

/// After any sequence of committed updates (the changes in the order they
/// were committed; failed updates and commands change nothing), each setting
/// holds the value of the latest change to it, or its value at the start.
/// Since an accepted timeout or output limit is above zero, these stay above
/// zero when they started so.
pub proof fn law_settings_follow_latest_change(
    start: (Seq<char>, u64, usize),
    changes: Seq<SettingChange>,
)
    ensures
        settings_after(start, changes).0 == latest_workdir(changes, start.0),
        settings_after(start, changes).1 == latest_timeout(changes, start.1),
        settings_after(start, changes).2 == latest_max_output(changes, start.2),
        start.1 > 0 && (forall|i: int|
            0 <= i < changes.len() ==> !(#[trigger] changes[i] matches SettingChange::Timeout(0)))
            ==> settings_after(start, changes).1 > 0,
        start.2 > 0 && (forall|i: int|
            0 <= i < changes.len() ==> !(#[trigger] changes[i] matches SettingChange::MaxOutput(
                0,
            ))) ==> settings_after(start, changes).2 > 0,
    decreases changes.len(),
{
    if changes.len() > 0 {
        let init = changes.drop_last();
        law_settings_follow_latest_change(start, init);
        assert forall|i: int| 0 <= i < init.len() implies init[i] == changes[i] by {}
        let last = changes.last();
        assert(last == changes[changes.len() - 1]);
    }
}


// ---------------------------------------------------------------------------
// The working directory
// ---------------------------------------------------------------------------

/// A directory that the file system reports as existing, a directory, and
/// its own canonical form is accepted as it is: validating the directory
/// that validation gave keeps it (canonical forms being canonical, which the
/// file system gives).
pub proof fn law_canonical_workdir_kept(dir: String)
    ensures
        workdir_result(
            WorkdirProbe::Checked { shown: dir, exists: true, is_dir: true, canonical: Some(dir) },
        ) == Ok::<Seq<char>, Seq<char>>(dir@),
{
}


// ---------------------------------------------------------------------------
// What the operations are for
// ---------------------------------------------------------------------------

/// `piece` occurs in `s` as a contiguous run of characters.
pub open spec fn contains_text(s: Seq<char>, piece: Seq<char>) -> bool {
    exists|i: int| 0 <= i && i + piece.len() <= s.len() && #[trigger] s.subrange(i, i + piece.len()) == piece
}

/// Every user id, written in decimal as Telegram shows it, is accepted as
/// the list of exactly that user, whatever its size.
pub proof fn law_every_user_id_accepted(n: u64)
    ensures
        user_ids(decimal(n as nat)) == Ok::<Set<u64>, Seq<char>>(set![n]),
{
    let d = decimal(n as nat);
    lemma_decimal_digits(n as nat);
    lemma_decimal_trimmed(n as nat);
    law_decimal_reads_back_u64(n);
    assert forall|j: int| 0 <= j < d.len() implies d[j] != ',' by {
        assert(is_digit(d[j]));
    }
    lemma_find_none(d, ',', 0);
    assert(d.subrange(0, d.len() as int) =~= d);
    assert(Set::<u64>::empty().insert(n) =~= set![n]);
}

/// A command word (no whitespace, no `@`) followed by a space and an
/// argument that has no whitespace at its ends names that word, and its
/// argument is the whole of the rest, whatever characters (`@` among them)
/// it holds. So each command makes its request with that argument: `/run c`
/// and `!run c` run `c` itself, and the setting commands ask for `c`.
pub proof fn law_argument_is_whole_rest(w: Seq<char>, c: Seq<char>)
    requires
        w.len() > 0,
        forall|j: int| 0 <= j < w.len() ==> !is_white(#[trigger] w[j]) && w[j] != '@',
        c.len() > 0,
        !is_white(c[0]),
        !is_white(c.last()),
    ensures
        command_name(w + seq![' '] + c) == w,
        command_argument(w + seq![' '] + c) == c,
        requested("/run"@ + seq![' '] + c) == RequestView::Run(c),
        requested("!run"@ + seq![' '] + c) == RequestView::Run(c),
        requested("/set_workdir"@ + seq![' '] + c) == RequestView::SetWorkdir(c),
        requested("/set_timeout"@ + seq![' '] + c) == RequestView::SetTimeout(c),
        requested("/set_max_output"@ + seq![' '] + c) == RequestView::SetMaxOutput(c),
        requested("/help"@ + seq![' '] + c) == RequestView::Help,
        requested("/start"@ + seq![' '] + c) == RequestView::Help,
        requested("/config"@ + seq![' '] + c) == RequestView::ShowConfig,
{
    lemma_word_and_argument(w, c);
    reveal_strlit("/run");
    reveal_strlit("!run");
    reveal_strlit("/start");
    reveal_strlit("/help");
    reveal_strlit("/config");
    reveal_strlit("/set_workdir");
    reveal_strlit("/set_timeout");
    reveal_strlit("/set_max_output");
    lemma_slash_command("/run"@, c);
    lemma_slash_command("/set_workdir"@, c);
    lemma_slash_command("/set_timeout"@, c);
    lemma_slash_command("/set_max_output"@, c);
    lemma_slash_command("/help"@, c);
    lemma_slash_command("/start"@, c);
    lemma_slash_command("/config"@, c);
    assert("/run"@ != "/start"@);
    assert("/run"@ != "/help"@);
    assert("/run"@ != "/config"@);
    assert("/run"@ != "/set_workdir"@);
    assert("/run"@ != "/set_timeout"@);
    assert("/run"@ != "/set_max_output"@);
    assert("/set_workdir"@ != "/start"@);
    assert("/set_workdir"@ != "/help"@);
    assert("/set_workdir"@ != "/config"@);
    assert("/set_timeout"@ != "/start"@);
    assert("/set_timeout"@ != "/help"@);
    assert("/set_timeout"@ != "/config"@);
    assert("/set_timeout"@[5] != "/set_workdir"@[5]);
    assert("/set_timeout"@ != "/set_workdir"@);
    assert("/set_max_output"@ != "/start"@);
    assert("/set_max_output"@ != "/help"@);
    assert("/set_max_output"@ != "/config"@);
    assert("/set_max_output"@ != "/set_workdir"@);
    assert("/set_max_output"@ != "/set_timeout"@);
    assert("/config"@ != "/start"@);
    assert("/config"@ != "/help"@);
    // `!run c`
    let t = "!run"@ + seq![' '] + c;
    assert(t[0] == '!');
    assert(t.last() == c.last());
    lemma_trimmed_plain(t);
    assert(t.take(4) =~= "!run"@);
    assert(t.skip(4) =~= seq![' '] + c);
    assert((seq![' '] + c)[0] == ' ');
    assert((seq![' '] + c).last() == c.last());
    lemma_trim_leading_space(c);
}

proof fn lemma_trim_leading_space(c: Seq<char>)
    requires
        c.len() > 0,
        !is_white(c[0]),
        !is_white(c.last()),
    ensures
        trimmed(seq![' '] + c) == c,
{
    let t = seq![' '] + c;
    assert(is_white(' '));
    assert(t[1] == c[0]);
    assert(skip_white_from(t, 1) == 1);
    assert(skip_white_from(t, 0) == 1);
    assert(t.last() == c.last());
    assert(back_white_from(t, 1, t.len() as int) == t.len());
    assert(t.subrange(1, t.len() as int) =~= c);
}

/// A command word that begins with `/` and has no whitespace or `@`, then a
/// space and an argument: the message is trimmed already, does not begin with
/// `!run`, and splits into the word and the argument.
proof fn lemma_slash_command(w: Seq<char>, c: Seq<char>)
    requires
        w.len() > 0,
        w[0] == '/',
        forall|j: int| 0 <= j < w.len() ==> !is_white(#[trigger] w[j]) && w[j] != '@',
        c.len() > 0,
        !is_white(c[0]),
        !is_white(c.last()),
    ensures
        trimmed(w + seq![' '] + c) == w + seq![' '] + c,
        !has_prefix(w + seq![' '] + c, "!run"@),
        command_name(w + seq![' '] + c) == w,
        command_argument(w + seq![' '] + c) == c,
{
    reveal_strlit("!run");
    lemma_word_and_argument(w, c);
    let t = w + seq![' '] + c;
    assert(t[0] == '/');
    assert(t.last() == c.last());
    lemma_trimmed_plain(t);
    if has_prefix(t, "!run"@) {
        assert(t.take(4)[0] == "!run"@[0]);
    }
}

proof fn lemma_word_and_argument(w: Seq<char>, c: Seq<char>)
    requires
        w.len() > 0,
        forall|j: int| 0 <= j < w.len() ==> !is_white(#[trigger] w[j]) && w[j] != '@',
        c.len() > 0,
        !is_white(c[0]),
        !is_white(c.last()),
    ensures
        command_name(w + seq![' '] + c) == w,
        command_argument(w + seq![' '] + c) == c,
{
    let t = w + seq![' '] + c;
    let k = w.len() as int;
    assert forall|j: int| 0 <= j < k implies !is_white(t[j]) by {
        assert(t[j] == w[j]);
    }
    assert(t[k] == ' ');
    assert(is_white(' '));
    lemma_white_first(t, 0, k);
    assert(t.take(k) =~= w);
    assert forall|j: int| 0 <= j < k implies w[j] != '@' by {}
    lemma_find_none(w, '@', 0);
    assert(w.take(k) =~= w);
    assert(t.skip(k + 1) =~= c);
    lemma_trimmed_plain(c);
}

/// The answer to a command shows its output whole: it begins with the
/// command and its exit status and then the whole of stdout when stdout is
/// not blank (`(empty)` when it is), and it ends with the whole of stderr
/// when stderr is not blank (`(empty)` when it is).
pub proof fn law_command_output_shown_whole(command: Seq<char>, result: CommandResult)
    ensures
        ({
            let reply = command_result_text(command, result);
            let head = "$ "@ + command + "\nexit: "@ + exit_status_text(result.exit_code)
                + "\n\nstdout:\n"@;
            let out = if trimmed(result.stdout@).len() == 0 {
                "(empty)"@
            } else {
                result.stdout@
            };
            let err = if trimmed(result.stderr@).len() == 0 {
                "(empty)"@
            } else {
                result.stderr@
            };
            &&& reply.take((head + out).len() as int) == head + out
            &&& reply.skip(reply.len() - ("\n\nstderr:\n"@ + err).len()) == "\n\nstderr:\n"@ + err
        }),
{
    let reply = command_result_text(command, result);
    let head = "$ "@ + command + "\nexit: "@ + exit_status_text(result.exit_code) + "\n\nstdout:\n"@;
    let out = if trimmed(result.stdout@).len() == 0 {
        "(empty)"@
    } else {
        result.stdout@
    };
    let err = if trimmed(result.stderr@).len() == 0 {
        "(empty)"@
    } else {
        result.stderr@
    };
    let tail = "\n\nstderr:\n"@ + err;
    assert(reply =~= (head + out) + tail);
    assert(reply.take((head + out).len() as int) =~= head + out);
    assert(reply.skip(reply.len() - tail.len()) =~= tail);
}

/// The help message shows the terminal's current working directory,
/// timeout, output limit and number of users, whatever they are.
pub proof fn law_help_shows_current_limits(terminal: TerminalService)
    ensures
        contains_text(
            service_help_text(terminal),
            "- workdir: "@ + terminal.settings_view().working_dir@ + "\n"@,
        ),
        contains_text(
            service_help_text(terminal),
            "- timeout: "@ + decimal(terminal.settings_view().timeout as nat) + " seconds"@,
        ),
        contains_text(
            service_help_text(terminal),
            "- max output chars: "@ + decimal(terminal.settings_view().max_output_chars as nat)
                + "\n"@,
        ),
        contains_text(
            service_help_text(terminal),
            "- allowed users: "@ + decimal(terminal.allowed().len()) + "\n"@,
        ),
{
    let a = "bot-terminal\n\nCommands:\n/help - show this message\n/config - show current runtime settings\n/run <command> - execute a shell command\n\n/set_workdir <path> - update BOT_WORKDIR\n/set_timeout <seconds> - update BOT_COMMAND_TIMEOUT_SECS\n/set_max_output <chars> - update BOT_MAX_OUTPUT_CHARS\n\nCurrent limits:\n- workdir: "@;
    let b = "\n- timeout: "@;
    let c = " seconds\n- max output chars: "@;
    let d = "\n- allowed users: "@;
    let e = "\n\nExample:\n/run pwd"@;
    reveal_strlit("bot-terminal\n\nCommands:\n/help - show this message\n/config - show current runtime settings\n/run <command> - execute a shell command\n\n/set_workdir <path> - update BOT_WORKDIR\n/set_timeout <seconds> - update BOT_COMMAND_TIMEOUT_SECS\n/set_max_output <chars> - update BOT_MAX_OUTPUT_CHARS\n\nCurrent limits:\n- workdir: ");
    reveal_strlit("\n- timeout: ");
    reveal_strlit(" seconds\n- max output chars: ");
    reveal_strlit("\n- allowed users: ");
    reveal_strlit("\n\nExample:\n/run pwd");
    reveal_strlit("- workdir: ");
    reveal_strlit("- timeout: ");
    reveal_strlit(" seconds");
    reveal_strlit("- max output chars: ");
    reveal_strlit("- allowed users: ");
    reveal_strlit("\n");
    let wd = terminal.settings_view().working_dir@;
    let t = decimal(terminal.settings_view().timeout as nat);
    let m = decimal(terminal.settings_view().max_output_chars as nat);
    let u = decimal(terminal.allowed().len());
    let h = service_help_text(terminal);
    assert(h == a + wd + b + t + c + m + d + u + e);

    let p1 = "- workdir: "@ + wd + "\n"@;
    let i1: int = a.len() - 11;
    assert(h.subrange(i1, i1 + p1.len()) =~= p1);

    let p2 = "- timeout: "@ + t + " seconds"@;
    let i2: int = (a + wd).len() as int + 1;
    assert(h.subrange(i2, i2 + p2.len()) =~= p2);

    let p3 = "- max output chars: "@ + m + "\n"@;
    let i3: int = (a + wd + b + t).len() as int + 9;
    assert(h.subrange(i3, i3 + p3.len()) =~= p3);

    let p4 = "- allowed users: "@ + u + "\n"@;
    let i4: int = (a + wd + b + t + c + m).len() as int + 1;
    assert(h.subrange(i4, i4 + p4.len()) =~= p4);
}

/// A setting that is set but blank reads as its default, exactly as an
/// unset one does.
pub proof fn law_blank_setting_is_default(key: Seq<char>, v: String, d: u64, ds: usize)
    requires
        trimmed(v@).len() == 0,
    ensures
        u64_setting(key, EnvValue::Present(v), d) == Ok::<u64, Seq<char>>(d),
        u64_setting(key, EnvValue::NotPresent, d) == Ok::<u64, Seq<char>>(d),
        usize_setting(key, EnvValue::Present(v), ds) == Ok::<usize, Seq<char>>(ds),
        usize_setting(key, EnvValue::NotPresent, ds) == Ok::<usize, Seq<char>>(ds),
{
}


/// A setting written as a decimal number, as an update stores it, reads as
/// that number.
pub proof fn law_written_setting_reads_back(key: Seq<char>, v: String, n: u64, d: u64, ds: usize)
    requires
        v@ == decimal(n as nat),
    ensures
        u64_setting(key, EnvValue::Present(v), d) == Ok::<u64, Seq<char>>(n),
        n <= usize::MAX ==> usize_setting(key, EnvValue::Present(v), ds) == Ok::<usize, Seq<char>>(
            n as usize,
        ),
{
    law_decimal_reads_back_u64(n);
    lemma_decimal_digits(n as nat);
}

proof fn lemma_leading_zero(s: Seq<char>)
    requires
        all_digits(s),
    ensures
        digits_value(seq!['0'] + s) == digits_value(s),
    decreases s.len(),
{
    let z = seq!['0'] + s;
    if s.len() == 0 {
        assert(z.drop_last() =~= Seq::<char>::empty());
        assert(z.last() == '0');
        assert(digit_value('0') == 0);
        assert(s =~= Seq::<char>::empty());
    } else {
        assert(all_digits(s.drop_last())) by {
            assert forall|j: int| 0 <= j < s.drop_last().len() implies is_digit(
                #[trigger] s.drop_last()[j],
            ) by {
                assert(s.drop_last()[j] == s[j]);
            }
        }
        assert(is_digit(s[s.len() - 1]));
        lemma_leading_zero(s.drop_last());
        assert(z.drop_last() =~= seq!['0'] + s.drop_last());
        assert(z.last() == s.last());
        assert(digits_value(s) == digits_value(s.drop_last()) * 10 + digit_value(s.last()));
    }
}

/// How numbers are read (`str::parse::<u64>`): the decimal form of `n`
/// reads as `n`, also after a `+` or a leading zero; a character that is no
/// digit (other than a `+` in front) makes the text no number, and neither
/// the empty text nor a lone `+` is one.
pub proof fn law_parse_u64_forms(n: u64, s: Seq<char>, i: int)
    ensures
        parsed_u64(decimal(n as nat)) == Some(n),
        parsed_u64(seq!['+'] + decimal(n as nat)) == Some(n),
        parsed_u64(seq!['0'] + decimal(n as nat)) == Some(n),
        0 <= i < s.len() && !is_digit(s[i]) && !(i == 0 && s[0] == '+') ==> parsed_u64(s) is None,
        parsed_u64(Seq::empty()) is None,
        parsed_u64(seq!['+']) is None,
{
    let d = decimal(n as nat);
    lemma_decimal_digits(n as nat);
    assert(is_digit(d[0]));
    assert(unsigned_digits(d) == d);
    let p = seq!['+'] + d;
    assert(unsigned_digits(p) =~= d);
    let z = seq!['0'] + d;
    assert(is_digit('0'));
    assert(z[0] == '0');
    assert(unsigned_digits(z) == z);
    lemma_leading_zero(d);
    assert forall|j: int| 0 <= j < z.len() implies is_digit(#[trigger] z[j]) by {
        if j > 0 {
            assert(z[j] == d[j - 1]);
        }
    }
    if 0 <= i < s.len() && !is_digit(s[i]) && !(i == 0 && s[0] == '+') {
        let u = unsigned_digits(s);
        if s.len() > 0 && s[0] == '+' {
            assert(u[i - 1] == s[i]);
        } else {
            assert(u[i] == s[i]);
        }
    }
    assert(unsigned_digits(seq!['+']).len() == 0);
}

/// The exit status is shown as the exit code: a code that is not negative
/// reads back as itself, a negative one is a `-` before its magnitude, and
/// a command ended by a signal says so.
pub proof fn law_exit_status_reads_back(x: i32)
    ensures
        x >= 0 ==> parsed_u64(exit_status_text(Some(x))) == Some(x as u64),
        x < 0 ==> exit_status_text(Some(x))[0] == '-' && parsed_u64(
            exit_status_text(Some(x)).drop_first(),
        ) == Some((-x) as u64),
        exit_status_text(None) == "terminated by signal"@,
{
    if x >= 0 {
        law_parse_u64_forms(x as u64, Seq::empty(), 0);
    } else {
        let m = (-x) as u64;
        law_parse_u64_forms(m, Seq::empty(), 0);
        assert((seq!['-'] + decimal(m as nat)).drop_first() =~= decimal(m as nat));
    }
}

/// An entry list holding only blanks names nobody, and a single entry that
/// is no number is the error, trimmed.
pub proof fn law_user_ids_single_entry(s: Seq<char>)
    requires
        forall|j: int| 0 <= j < s.len() ==> s[j] != ',',
    ensures
        trimmed(s).len() == 0 ==> user_ids(s) == Ok::<Set<u64>, Seq<char>>(Set::empty()),
        trimmed(s).len() > 0 && parsed_u64(trimmed(s)) is None ==> user_ids(s) == Err::<
            Set<u64>,
            Seq<char>,
        >(trimmed(s)),
        trimmed(s).len() > 0 && parsed_u64(trimmed(s)) is Some ==> user_ids(s)
            == Ok::<Set<u64>, Seq<char>>(set![parsed_u64(trimmed(s))->0]),
{
    lemma_find_none(s, ',', 0);
    assert(s.subrange(0, s.len() as int) =~= s);
    if trimmed(s).len() > 0 {
        if let Some(n) = parsed_u64(trimmed(s)) {
            assert(Set::<u64>::empty().insert(n) =~= set![n]);
        }
    }
}

} // verus!
