//! The students who signed something out this year, offered to the user
//! while a student number is typed.

use vstd::prelude::*;
use crate::records::Student;
use crate::text::{byte_len, byte_length, chars_of};

verus! {

/// How many students are offered at most.
pub const MAX_SUGGESTIONS: usize = 10;

/// A text in upper case, as std writes it.
pub uninterp spec fn uppercase(text: Seq<char>) -> Seq<char>;

/// A text in upper case.
///
/// Trusted: calls std's `str::to_uppercase`. The contract only names what
/// std returns.
#[verifier::external_body]
fn to_upper(text: &str) -> (r: String)
    ensures
        r@ == uppercase(text@),
{
    text.to_uppercase()
}

/// Whether `part` stands in `text` at place `at`.
pub open spec fn stands_at(text: Seq<char>, part: Seq<char>, at: int) -> bool {
    0 <= at <= text.len() - part.len() && text.subrange(at, at + part.len()) == part
}

/// Whether `part` stands somewhere in `text`.
pub open spec fn has_part(text: Seq<char>, part: Seq<char>) -> bool {
    exists|at: int| stands_at(text, part, at)
}

/// Whether `part` stands in `text` at place `at`.
fn part_at(text: &Vec<char>, part: &Vec<char>, at: usize) -> (r: bool)
    requires
        at + part.len() <= text.len(),
    ensures
        r == stands_at(text@, part@, at as int),
{
    let mut k: usize = 0;
    while k < part.len()
        invariant
            k <= part.len(),
            at + part.len() <= text.len(),
            forall|j: int| 0 <= j < k ==> text@[at + j] == part@[j],
        decreases part.len() - k,
    {
        if text[at + k] != part[k] {
            assert(text@.subrange(at as int, at + part.len())[k as int] != part@[k as int]);
            return false;
        }
        k += 1;
    }
    assert(text@.subrange(at as int, at + part.len()) =~= part@);
    true
}

/// Whether `part` stands somewhere in `text`.
pub fn contains_part(text: &str, part: &str) -> (r: bool)
    ensures
        r == has_part(text@, part@),
{
    let text_chars = chars_of(text);
    let part_chars = chars_of(part);
    if part_chars.len() > text_chars.len() {
        return false;
    }
    let last = text_chars.len() - part_chars.len();
    let mut at: usize = 0;
    while at < last
        invariant
            at <= last,
            last == text_chars.len() - part_chars.len(),
            text_chars@ == text@,
            part_chars@ == part@,
            forall|j: int| 0 <= j < at ==> !stands_at(text@, part@, j),
        decreases last - at,
    {
        if part_at(&text_chars, &part_chars, at) {
            return true;
        }
        at += 1;
    }
    part_at(&text_chars, &part_chars, last)
}

/// Whether a student is offered for what was typed: the student's number
/// holds the typed text, put in upper case.
pub open spec fn offered(student: Student, typed: Seq<char>) -> bool {
    has_part(student.number@, uppercase(typed))
}

/// The places of the students that are offered for what was typed, in the
/// order of the list.
pub fn suggestions(students: &Vec<Student>, typed: &str) -> (places: Vec<usize>)
    ensures
        forall|k: int| 0 <= k < places.len() ==> places[k] < students.len() && offered(
            students[places[k] as int],
            typed@,
        ),
        forall|j: int, k: int| 0 <= j < k < places.len() ==> places[j] < places[k],
        forall|i: int|
            0 <= i < students.len() && offered(students[i], typed@) ==> places@.contains(i as usize),
{
    let wanted = to_upper(typed);
    let mut places: Vec<usize> = Vec::new();
    let mut i: usize = 0;
    while i < students.len()
        invariant
            i <= students.len(),
            wanted@ == uppercase(typed@),
            forall|k: int| 0 <= k < places.len() ==> places[k] < i && offered(
                students[places[k] as int],
                typed@,
            ),
            forall|j: int, k: int| 0 <= j < k < places.len() ==> places[j] < places[k],
            forall|j: int| 0 <= j < i && offered(students[j], typed@) ==> places@.contains(j as usize),
        decreases students.len() - i,
    {
        if contains_part(students[i].number.as_str(), wanted.as_str()) {
            let ghost before = places@;
            places.push(i);
            assert forall|j: int| 0 <= j < i + 1 && offered(students[j], typed@) implies places@.contains(
                j as usize,
            ) by {
                if j < i {
                    assert(before.contains(j as usize));
                    let k = choose|k: int| 0 <= k < before.len() && before[k] == j as usize;
                    assert(places@[k] == j as usize);
                } else {
                    assert(places@[places.len() - 1] == i);
                }
            }
        }
        i += 1;
    }
    places
}

/// How many of the offered students are shown: ten at most.
pub fn shown(offered: usize) -> (r: usize)
    ensures
        r == (if offered < MAX_SUGGESTIONS { offered } else { MAX_SUGGESTIONS }),
{
    if offered < MAX_SUGGESTIONS {
        offered
    } else {
        MAX_SUGGESTIONS
    }
}

/// Whether the list of students is open: while something is typed, the
/// field has the user's attention, and a student is offered.
pub fn popup_open(typed: &str, has_focus: bool, offered: usize) -> (r: bool)
    ensures
        r == (byte_len(typed@) > 0 && has_focus && offered > 0),
{
    byte_length(typed) > 0 && has_focus && offered > 0
}

/// The user picked a student: the number and the name go into the form.
pub fn pick(student: &Student, student_number: &mut String, student_name: &mut String)
    ensures
        final(student_number)@ == student.number@,
        final(student_name)@ == student.name@,
{
    *student_number = student.number.clone();
    *student_name = student.name.clone();
}

} // verus!
