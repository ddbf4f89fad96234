//! The naming of migration files.

use vstd::prelude::*;
use vstd::string::*;
use crate::text::{
    alphanumeric, ascii_lower, ends_with, has_prefix, has_suffix, is_alphanumeric, push_char,
    starts_with, to_ascii_lower,
};

verus! {

/// What becomes of one character of a description: letters and numbers stay,
/// ASCII letters in lower case, and so does the underscore; everything else
/// becomes an underscore.
pub open spec fn sanitized_char(c: char) -> char {
    if alphanumeric(c) || c == '_' {
        ascii_lower(c)
    } else {
        '_'
    }
}

/// A text without the underscores that it begins with.
pub open spec fn trim_start(s: Seq<char>) -> Seq<char>
    decreases s.len(),
{
    if s.len() > 0 && s[0] == '_' {
        trim_start(s.drop_first())
    } else {
        s
    }
}

/// A text without the underscores that it ends with.
pub open spec fn trim_end(s: Seq<char>) -> Seq<char>
    decreases s.len(),
{
    if s.len() > 0 && s.last() == '_' {
        trim_end(s.drop_last())
    } else {
        s
    }
}

/// A text in which, from left to right, every two underscores in a row have
/// been made one. A run of three becomes two, a run of four two as well.
pub open spec fn collapse(s: Seq<char>) -> Seq<char>
    decreases s.len(),
{
    if s.len() >= 2 && s[0] == '_' && s[1] == '_' {
        seq!['_'] + collapse(s.skip(2))
    } else if s.len() >= 1 {
        seq![s[0]] + collapse(s.skip(1))
    } else {
        Seq::empty()
    }
}

/// The part of a migration's file name that a description gives.
pub open spec fn sanitized(description: Seq<char>) -> Seq<char> {
    collapse(trim_end(trim_start(description.map_values(|c: char| sanitized_char(c)))))
}

proof fn lemma_trim_start_skips(s: Seq<char>, k: int)
    requires
        0 <= k <= s.len(),
        forall|j: int| 0 <= j < k ==> s[j] == '_',
    ensures
        trim_start(s) == trim_start(s.skip(k)),
    decreases k,
{
    if k > 0 {
        assert(s.drop_first().skip(k - 1) =~= s.skip(k));
        lemma_trim_start_skips(s.drop_first(), k - 1);
    } else {
        assert(s.skip(0) =~= s);
    }
}

proof fn lemma_trim_end_takes(s: Seq<char>, k: int)
    requires
        0 <= k <= s.len(),
        forall|j: int| k <= j < s.len() ==> s[j] == '_',
    ensures
        trim_end(s) == trim_end(s.take(k)),
    decreases s.len() - k,
{
    if k < s.len() {
        assert(s.drop_last().take(k) =~= s.take(k));
        lemma_trim_end_takes(s.drop_last(), k);
    } else {
        assert(s.take(k) =~= s);
    }
}

/// Makes of a description the part of a file name: see [`sanitized`].
pub fn sanitize_description(description: &str) -> (r: String)
    ensures
        r@ == sanitized(description@),
{
    let n = description.unicode_len();
    let mut mapped: Vec<char> = Vec::new();
    let mut i: usize = 0;
    while i < n
        invariant
            i <= n,
            n == description@.len(),
            mapped@.len() == i,
            forall|j: int| 0 <= j < i ==> mapped@[j] == sanitized_char(description@[j]),
        decreases n - i,
    {
        let c = description.get_char(i);
        if is_alphanumeric(c) || c == '_' {
            mapped.push(to_ascii_lower(c));
        } else {
            mapped.push('_');
        }
        i += 1;
    }
    assert(mapped@ =~= description@.map_values(|c: char| sanitized_char(c)));
    let mut start: usize = 0;
    while start < n && mapped[start] == '_'
        invariant
            start <= n,
            mapped@.len() == n,
            forall|j: int| 0 <= j < start ==> mapped@[j] == '_',
        decreases n - start,
    {
        start += 1;
    }
    let mut end: usize = n;
    while end > start && mapped[end - 1] == '_'
        invariant
            start <= end <= n,
            mapped@.len() == n,
            forall|j: int| end <= j < n ==> mapped@[j] == '_',
        decreases end,
    {
        end -= 1;
    }
    let ghost trimmed = mapped@.subrange(start as int, end as int);
    proof {
        let tail = mapped@.skip(start as int);
        lemma_trim_start_skips(mapped@, start as int);
        lemma_trim_end_takes(tail, end - start);
        assert(tail.take(end - start) =~= trimmed);
        assert(trim_end(trimmed) == trimmed);
        assert(trimmed.skip(0) =~= trimmed);
    }
    let mut out = String::new();
    let mut k: usize = start;
    while k < end
        invariant
            start <= k <= end <= n,
            mapped@.len() == n,
            trimmed == mapped@.subrange(start as int, end as int),
            out@ + collapse(trimmed.skip(k - start)) == collapse(trimmed),
        decreases end - k,
    {
        let ghost rest = trimmed.skip(k - start);
        if k + 1 < end && mapped[k] == '_' && mapped[k + 1] == '_' {
            assert(rest.skip(2) =~= trimmed.skip(k + 2 - start));
            push_char(&mut out, '_');
            k += 2;
        } else {
            assert(rest.skip(1) =~= trimmed.skip(k + 1 - start));
            assert(!(rest.len() >= 2 && rest[0] == '_' && rest[1] == '_'));
            push_char(&mut out, mapped[k]);
            k += 1;
        }
    }
    out
}

/// Whether a file name is that of a migration made at `timestamp`.
pub open spec fn is_migration_at(name: Seq<char>, timestamp: Seq<char>) -> bool {
    has_prefix(name, timestamp) && has_suffix(name, ".sql"@)
}

/// Whether one of the files `names` is a migration made at `timestamp`, so
/// that a new migration has to wait for another timestamp.
pub fn timestamp_taken(names: &Vec<String>, timestamp: &str) -> (r: bool)
    ensures
        r == exists|i: int| 0 <= i < names@.len() && is_migration_at(#[trigger] names@[i]@, timestamp@),
{
    let mut i: usize = 0;
    while i < names.len()
        invariant
            i <= names@.len(),
            forall|j: int| 0 <= j < i ==> !is_migration_at(#[trigger] names@[j]@, timestamp@),
        decreases names@.len() - i,
    {
        let name = names[i].as_str();
        if starts_with(name, timestamp) && ends_with(name, ".sql") {
            return true;
        }
        i += 1;
    }
    false
}

/// The name of the file of a migration: the timestamp, an underscore, the
/// description, and `.sql`.
pub fn migration_file_name(timestamp: &str, description: &str) -> (r: String)
    ensures
        r@ == timestamp@ + "_"@ + description@ + ".sql"@,
{
    String::from_str(timestamp).concat("_").concat(description).concat(".sql")
}

/// What a new migration file holds: the description, the time of its
/// making as `created` writes it, and the place for the SQL.
pub fn migration_template(description: &str, created: &str) -> (r: String)
    ensures
        r@ == "-- Migration: "@ + description@ + "\n-- Created: "@ + created@
            + "\n\n-- Add your migration SQL here\n\n"@,
{
    String::from_str("-- Migration: ").concat(description).concat("\n-- Created: ").concat(
        created,
    ).concat("\n\n-- Add your migration SQL here\n\n")
}

} // verus!
