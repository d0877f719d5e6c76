//! The `.env` file: how a setting is written into its text.
use vstd::prelude::*;

use crate::config::ConfigError;
use crate::text::{
    append_chars, chars_of, copy_range, find_char, find_from, has_prefix, push_char,
    range_has_prefix, skip_white, trim_start,
};

verus! {

/// A line without the carriage return that ended it, if any.
pub open spec fn strip_cr(l: Seq<char>) -> Seq<char> {
    if l.len() > 0 && l.last() == '\r' {
        l.drop_last()
    } else {
        l
    }
}

/// `str::lines` from index `pos` on: lines end at `\n`, a line ended by
/// `\r\n` loses the `\r`, and a final `\n` starts no further line.
pub open spec fn lines_from(s: Seq<char>, pos: int) -> Seq<Seq<char>>
    decreases s.len() - pos,
{
    if pos < 0 || pos >= s.len() {
        seq![]
    } else {
        let k = find_from(s, '\n', pos);
        if k >= s.len() {
            seq![s.subrange(pos, s.len() as int)]
        } else if k >= pos {
            seq![strip_cr(s.subrange(pos, k))] + lines_from(s, k + 1)
        } else {
            seq![]
        }
    }
}

/// `str::lines`.
pub open spec fn lines(s: Seq<char>) -> Seq<Seq<char>> {
    lines_from(s, 0)
}

/// The lines joined with `\n` between them.
pub open spec fn join_lines(ls: Seq<Seq<char>>) -> Seq<char>
    decreases ls.len(),
{
    if ls.len() == 0 {
        Seq::empty()
    } else if ls.len() == 1 {
        ls[0]
    } else {
        join_lines(ls.drop_last()) + seq!['\n'] + ls.last()
    }
}

/// The line `key=value`.
pub open spec fn entry(key: Seq<char>, value: Seq<char>) -> Seq<char> {
    key.push('=') + value
}

/// The line assigns `key`: after its leading whitespace it begins with `key=`.
pub open spec fn assigns(line: Seq<char>, key: Seq<char>) -> bool {
    has_prefix(trim_start(line), key.push('='))
}

/// A line with every assignment of `key` replaced by `key=value`.
pub open spec fn rewrite_line(line: Seq<char>, key: Seq<char>, value: Seq<char>) -> Seq<char> {
    if assigns(line, key) {
        entry(key, value)
    } else {
        line
    }
}

/// The lines of the updated file: each assignment of `key` becomes
/// `key=value`, the other lines stay as they are, and `key=value` is added at
/// the end when no line assigned `key`.
pub open spec fn updated_lines(existing: Seq<char>, key: Seq<char>, value: Seq<char>) -> Seq<
    Seq<char>,
> {
    let ls = lines(existing);
    let rewritten = ls.map_values(|l: Seq<char>| rewrite_line(l, key, value));
    if exists|i: int| 0 <= i < ls.len() && assigns(#[trigger] ls[i], key) {
        rewritten
    } else {
        rewritten.push(entry(key, value))
    }
}

/// The text of the updated file: its lines joined by `\n`, with a final `\n`
/// unless the text is empty.
pub open spec fn updated_env_content(existing: Seq<char>, key: Seq<char>, value: Seq<char>) -> Seq<
    char,
> {
    let body = join_lines(updated_lines(existing, key, value));
    if body.len() == 0 {
        body
    } else {
        body.push('\n')
    }
}

proof fn lemma_join_push(ls: Seq<Seq<char>>, x: Seq<char>)
    ensures
        join_lines(ls.push(x)) == if ls.len() == 0 {
            x
        } else {
            join_lines(ls) + seq!['\n'] + x
        },
{
    assert(ls.push(x).drop_last() =~= ls);
    if ls.len() == 0 {
        assert(ls.push(x)[0] == x);
    }
}

/// The first line of `v[pos..]` and where the rest begins.
fn next_line(v: &Vec<char>, pos: usize) -> (res: (Vec<char>, usize))
    requires
        pos < v.len(),
    ensures
        pos < res.1 <= v.len(),
        lines_from(v@, pos as int) == seq![res.0@] + lines_from(v@, res.1 as int),
{
    let k = find_char(v, '\n', pos);
    let end = if k < v.len() && k > pos && v[k - 1] == '\r' {
        k - 1
    } else {
        k
    };
    let line = copy_range(v, pos, end);
    if k < v.len() {
        assert(strip_cr(v@.subrange(pos as int, k as int)) =~= line@);
        (line, k + 1)
    } else {
        assert(lines_from(v@, v.len() as int) =~= Seq::<Seq<char>>::empty());
        assert(seq![line@] + Seq::<Seq<char>>::empty() =~= seq![line@]);
        (line, v.len())
    }
}

/// Whether `line`, after its leading whitespace, begins with `prefix`.
fn line_assigns(line: &Vec<char>, prefix: &Vec<char>) -> (b: bool)
    ensures
        b == has_prefix(trim_start(line@), prefix@),
{
    let a = skip_white(line, 0);
    let hit = range_has_prefix(line, a, line.len(), prefix);
    assert(line@.subrange(a as int, line@.len() as int) =~= trim_start(line@));
    hit
}

/// The text of the env file after setting `key` to `value`, as
/// `updated_env_content` describes.
pub fn update_env_content(existing: &str, key: &str, value: &str) -> (r: String)
    ensures
        r@ == updated_env_content(existing@, key@, value@),
{
    let v = chars_of(existing);
    let mut prefix = chars_of(key);
    prefix.push('=');
    let mut line_entry = key.to_owned();
    push_char(&mut line_entry, '=');
    line_entry.append(value);
    let ghost ent = entry(key@, value@);
    assert(line_entry@ == ent);
    let ghost all = lines(v@);
    let ghost rewritten = all.map_values(|l: Seq<char>| rewrite_line(l, key@, value@));
    let mut out = String::new();
    let mut count: usize = 0;
    let mut updated = false;
    let mut pos: usize = 0;
    assert(all =~= all.take(0) + lines_from(v@, 0));
    while pos < v.len()
        invariant
            v@ == existing@,
            prefix@ == key@.push('='),
            line_entry@ == ent,
            ent == entry(key@, value@),
            all == lines(v@),
            rewritten == all.map_values(|l: Seq<char>| rewrite_line(l, key@, value@)),
            count <= pos <= v.len(),
            count <= all.len(),
            all == all.take(count as int) + lines_from(v@, pos as int),
            out@ == join_lines(rewritten.take(count as int)),
            updated == exists|i: int| 0 <= i < count && assigns(#[trigger] all[i], key@),
        decreases v.len() - pos,
    {
        let (line, next) = next_line(&v, pos);
        let hit = line_assigns(&line, &prefix);
        let ghost before = rewritten.take(count as int);
        proof {
            assert(all[count as int] == line@);
            assert(rewritten.take(count + 1) =~= before.push(rewritten[count as int]));
            lemma_join_push(before, rewritten[count as int]);
        }
        if count > 0 {
            push_char(&mut out, '\n');
        }
        if hit {
            out.append(line_entry.as_str());
            updated = true;
        } else {
            append_chars(&mut out, &line, 0, line.len());
            assert(line@.subrange(0, line@.len() as int) =~= line@);
        }
        proof {
            assert(all.take(count + 1) =~= all.take(count as int).push(line@));
            assert(all =~= all.take(count + 1) + lines_from(v@, next as int));
        }
        count = count + 1;
        pos = next;
    }
    assert(all.take(count as int) =~= all);
    assert(rewritten.take(count as int) =~= rewritten);
    if !updated {
        proof {
            lemma_join_push(rewritten, ent);
        }
        if count > 0 {
            push_char(&mut out, '\n');
        }
        out.append(line_entry.as_str());
    }
    assert(out@ == join_lines(updated_lines(existing@, key@, value@)));
    if out.as_str().is_empty() {
        out
    } else {
        push_char(&mut out, '\n');
        out
    }
}

/// What reading the env file gave.
#[derive(Clone, Debug, PartialEq, Eq)]
pub enum EnvFileRead {
    /// The file's text.
    Loaded(String),
    /// There is no such file.
    NotFound,
    /// The file could not be read.
    Failed,
}

/// The text to write to the env file at `path` to set `key` to `value`: a
/// missing file counts as empty, an unreadable one is an error.
pub fn env_file_update(path: &str, read: &EnvFileRead, key: &str, value: &str) -> (r: Result<
    String,
    ConfigError,
>)
    ensures
        match read {
            EnvFileRead::Loaded(text) => r matches Ok(c) && c@ == updated_env_content(
                text@,
                key@,
                value@,
            ),
            EnvFileRead::NotFound => r matches Ok(c) && c@ == updated_env_content(
                Seq::empty(),
                key@,
                value@,
            ),
            EnvFileRead::Failed => r matches Err(ConfigError::EnvFileUnreadable(p)) && p@
                == path@,
        },
{
    match read {
        EnvFileRead::Loaded(text) => Ok(update_env_content(text.as_str(), key, value)),
        EnvFileRead::NotFound => {
            let empty = String::new();
            Ok(update_env_content(empty.as_str(), key, value))
        },
        EnvFileRead::Failed => Err(ConfigError::EnvFileUnreadable(path.to_owned())),
    }
}

} // verus!
