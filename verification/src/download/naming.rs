//! Names for downloads that are saved without asking: the suggested name if
//! it is free, else the first free one among its numbered variants.

use vstd::prelude::*;
use crate::download::text_set;
use crate::text::{chars_of, decimal, push_chars, push_decimal, string_of, text_is};

verus! {

/// One more than the highest number tried in a name.
pub const NAME_ATTEMPTS: u64 = 1000;

/// Where the last `.` of `name` stands, or -1 if it has none.
pub open spec fn last_dot(name: Seq<char>) -> int
    decreases name.len(),
{
    if name.len() == 0 {
        -1
    } else if name.last() == '.' {
        name.len() - 1
    } else {
        last_dot(name.drop_last())
    }
}

/// The part of `name` before its last `.`; all of it if it has none.
pub open spec fn stem_of(name: Seq<char>) -> Seq<char> {
    if last_dot(name) < 0 {
        name
    } else {
        name.take(last_dot(name))
    }
}

/// The extension of `name`, from its last `.` on; empty if it has none.
pub open spec fn extension_of(name: Seq<char>) -> Seq<char> {
    if last_dot(name) < 0 {
        Seq::empty()
    } else {
        name.skip(last_dot(name))
    }
}

/// The `n`th variant of `name`: `.(n)` goes between stem and extension.
pub open spec fn numbered(name: Seq<char>, n: nat) -> Seq<char> {
    stem_of(name) + seq!['.', '('] + decimal(n) + seq![')'] + extension_of(name)
}

/// The variant of `name` that carries a timestamp between stem and
/// extension.
pub open spec fn stamped(name: Seq<char>, timestamp: nat) -> Seq<char> {
    stem_of(name) + seq!['.'] + decimal(timestamp) + extension_of(name)
}

/// The least number from `from` on, and below `NAME_ATTEMPTS`, whose variant
/// of `name` is not taken.
pub open spec fn first_free(name: Seq<char>, taken: Set<Seq<char>>, from: nat) -> Option<nat>
    decreases NAME_ATTEMPTS - from,
{
    if from >= NAME_ATTEMPTS {
        None
    } else if !taken.contains(numbered(name, from)) {
        Some(from)
    } else {
        first_free(name, taken, from + 1)
    }
}

/// The name under which a download suggested as `name` is saved where the
/// names `taken` exist already: `name` itself if it is free; else its first
/// free variant `stem.(n).ext`, `n` from 1 on; and if all of those are taken,
/// its variant with the timestamp.
pub open spec fn unique_name(name: Seq<char>, taken: Set<Seq<char>>, timestamp: u64) -> Seq<
    char,
> {
    if !taken.contains(name) {
        name
    } else {
        match first_free(name, taken, 1) {
            Some(n) => numbered(name, n),
            None => stamped(name, timestamp as nat),
        }
    }
}

/// `first_free` finds a free variant, and every variant before it is taken.
pub proof fn lemma_first_free(name: Seq<char>, taken: Set<Seq<char>>, from: nat)
    ensures
        match first_free(name, taken, from) {
            Some(n) => {
                &&& from <= n < NAME_ATTEMPTS
                &&& !taken.contains(numbered(name, n))
                &&& forall|m: nat| from <= m < n ==> taken.contains(#[trigger] numbered(name, m))
            },
            None => forall|m: nat|
                from <= m < NAME_ATTEMPTS ==> taken.contains(#[trigger] numbered(name, m)),
        },
    decreases NAME_ATTEMPTS - from,
{
    if from < NAME_ATTEMPTS && taken.contains(numbered(name, from)) {
        lemma_first_free(name, taken, from + 1);
    }
}

/// Whether one of `taken` holds exactly the characters `name`.
fn is_taken(taken: &Vec<String>, name: &Vec<char>) -> (found: bool)
    ensures
        found == text_set(taken@).contains(name@),
{
    let mut i: usize = 0;
    while i < taken.len()
        invariant
            i <= taken@.len(),
            forall|j: int| 0 <= j < i ==> taken@[j]@ != name@,
        decreases taken@.len() - i,
    {
        if text_is(taken[i].as_str(), name) {
            return true;
        }
        i += 1;
    }
    false
}

/// Where the last `.` of `name` stands, if it has one.
fn find_last_dot(name: &Vec<char>) -> (dot: Option<usize>)
    ensures
        match dot {
            Some(k) => k == last_dot(name@) && k < name@.len(),
            None => last_dot(name@) < 0,
        },
{
    let mut i: usize = name.len();
    assert(name@.take(i as int) =~= name@);
    while i > 0
        invariant
            i <= name@.len(),
            last_dot(name@) == last_dot(name@.take(i as int)),
        decreases i,
    {
        assert(name@.take(i as int).drop_last() =~= name@.take(i - 1));
        if name[i - 1] == '.' {
            return Some(i - 1);
        }
        i -= 1;
    }
    None
}

/// Generate a unique filename by adding a counter if the name is taken
/// already: `file.txt`, then `file.(1).txt`, `file.(2).txt` and so on. `taken`
/// holds the names that exist in the directory, `timestamp` the seconds since
/// the Unix epoch, which name the file once every counter is used up.
pub fn unique_filename(filename: &str, taken: &Vec<String>, timestamp: u64) -> (name: String)
    ensures
        name@ == unique_name(filename@, text_set(taken@), timestamp),
{
    let chars = chars_of(filename);
    if !is_taken(taken, &chars) {
        return filename.to_owned();
    }
    let mut stem: Vec<char> = Vec::new();
    let mut extension: Vec<char> = Vec::new();
    match find_last_dot(&chars) {
        Some(k) => {
            let mut i: usize = 0;
            assert(chars@.subrange(k as int, k as int) =~= Seq::empty());
            while i < chars.len()
                invariant
                    k < chars@.len(),
                    i <= chars@.len(),
                    stem@ == chars@.take(if i < k {
                        i as int
                    } else {
                        k as int
                    }),
                    extension@ == chars@.subrange(k as int, if i < k {
                        k as int
                    } else {
                        i as int
                    }),
                decreases chars@.len() - i,
            {
                if i < k {
                    stem.push(chars[i]);
                    assert(chars@.take(i + 1) =~= chars@.take(i as int).push(chars@[i as int]));
                } else {
                    extension.push(chars[i]);
                    assert(chars@.subrange(k as int, i + 1) =~= chars@.subrange(
                        k as int,
                        i as int,
                    ).push(chars@[i as int]));
                }
                i += 1;
            }
            assert(extension@ =~= chars@.skip(k as int));
        },
        None => {
            push_chars(&mut stem, &chars);
            assert(stem@ =~= chars@);
        },
    }
    assert(stem@ == stem_of(filename@));
    assert(extension@ =~= extension_of(filename@));
    let mut counter: u64 = 1;
    while counter < NAME_ATTEMPTS
        invariant
            1 <= counter <= NAME_ATTEMPTS,
            text_set(taken@).contains(filename@),
            stem@ == stem_of(filename@),
            extension@ == extension_of(filename@),
            first_free(filename@, text_set(taken@), 1) == first_free(
                filename@,
                text_set(taken@),
                counter as nat,
            ),
        decreases NAME_ATTEMPTS - counter,
    {
        let mut candidate: Vec<char> = Vec::new();
        push_chars(&mut candidate, &stem);
        candidate.push('.');
        candidate.push('(');
        push_decimal(&mut candidate, counter);
        candidate.push(')');
        push_chars(&mut candidate, &extension);
        assert(candidate@ =~= numbered(filename@, counter as nat));
        if !is_taken(taken, &candidate) {
            assert(first_free(filename@, text_set(taken@), counter as nat) == Some(
                counter as nat,
            ));
            return string_of(&candidate);
        }
        assert(first_free(filename@, text_set(taken@), counter as nat) == first_free(
            filename@,
            text_set(taken@),
            (counter + 1) as nat,
        ));
        counter += 1;
    }
    let mut fallback: Vec<char> = Vec::new();
    push_chars(&mut fallback, &stem);
    fallback.push('.');
    push_decimal(&mut fallback, timestamp);
    push_chars(&mut fallback, &extension);
    assert(fallback@ =~= stamped(filename@, timestamp as nat));
    string_of(&fallback)
}

} // verus!
