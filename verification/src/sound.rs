//! The sound handler's decisions: wrap a chat line into the caption for
//! the speech request it publishes, and pick the sample files whose names
//! appear as words of the line.
//!
//! The surrounding program reads the sample directory once at startup and
//! hands the file list in; it plays the returned files in order.

use vstd::prelude::*;
use vstd::string::StringExecFns;

use crate::text::lower_of;
use crate::text::lowercase;
use crate::text::split_spaces;
use crate::text::split_words;
use crate::text::str_eq;
use crate::text::wrap_text;
use crate::text::wrapped_message;
use crate::types::Event;
use crate::types::UberDuckRequest;

verus! {

/// The sample file a word maps to: its lower-cased form inside the
/// sample directory.
pub open spec fn mp3_path(word: Seq<char>) -> Seq<char> {
    "./MP3s/"@ + lower_of(word) + ".mp3"@
}

/// Whether `p` is among the available file names.
pub open spec fn contains_seq(avail: Seq<Seq<char>>, p: Seq<char>) -> bool {
    exists|j: int| 0 <= j < avail.len() && avail[j] == p
}

/// The sample files to play for a word list: each word's file, in word
/// order, keeping only those that exist.
pub open spec fn matched_sound_files(words: Seq<Seq<char>>, avail: Seq<Seq<char>>) -> Seq<
    Seq<char>,
>
    decreases words.len(),
{
    if words.len() == 0 {
        Seq::<Seq<char>>::empty()
    } else {
        let rest = matched_sound_files(words.drop_last(), avail);
        if contains_seq(avail, mp3_path(words.last())) {
            rest.push(mp3_path(words.last()))
        } else {
            rest
        }
    }
}

fn contains_string(avail: &Vec<String>, p: &String) -> (r: bool)
    ensures
        r == contains_seq(avail.deep_view(), p@),
{
    let ghost av = avail.deep_view();
    proof {
        assert(av.len() == avail@.len());
    }
    let n = avail.len();
    let mut i: usize = 0;
    while i < n
        invariant
            i <= n,
            n == avail@.len(),
            av == avail.deep_view(),
            av.len() == n,
            forall|k: int| 0 <= k < i ==> av[k] != p@,
        decreases n - i,
    {
        proof {
            assert(av[i as int] == avail@[i as int]@);
        }
        if str_eq(avail[i].as_str(), p.as_str()) {
            return true;
        }
        i = i + 1;
    }
    false
}

/// Picks, in word order, the sample files named by the lower-cased words
/// of the message that exist among the available files.
pub fn sound_files_for_message(words: &Vec<String>, available: &Vec<String>) -> (r: Vec<String>)
    ensures
        r.deep_view() == matched_sound_files(words.deep_view(), available.deep_view()),
{
    let ghost ws = words.deep_view();
    proof {
        assert(ws.len() == words@.len());
    }
    let n = words.len();
    let mut r: Vec<String> = Vec::new();
    let mut i: usize = 0;
    proof {
        assert(ws.subrange(0, 0) =~= Seq::<Seq<char>>::empty());
        assert(r.deep_view() =~= matched_sound_files(ws.subrange(0, 0), available.deep_view()));
    }
    while i < n
        invariant
            i <= n,
            n == words@.len(),
            ws == words.deep_view(),
            ws.len() == n,
            r.deep_view() == matched_sound_files(ws.subrange(0, i as int), available.deep_view()),
        decreases n - i,
    {
        let ghost old_r = r.deep_view();
        proof {
            assert(ws[i as int] == words@[i as int]@);
        }
        let lower = lowercase(words[i].as_str());
        let path = String::from_str("./MP3s/").concat(lower.as_str()).concat(".mp3");
        proof {
            assert(path@ == mp3_path(ws[i as int]));
        }
        let found = contains_string(available, &path);
        if found {
            r.push(path);
        }
        proof {
            let pre = ws.subrange(0, i as int);
            let now = ws.subrange(0, i + 1);
            assert(now.drop_last() =~= pre);
            assert(now.last() == ws[i as int]);
            if found {
                assert(r.deep_view() =~= old_r.push(mp3_path(ws[i as int])));
            }
            assert(r.deep_view() =~= matched_sound_files(now, available.deep_view()));
        }
        i = i + 1;
    }
    proof {
        assert(ws.subrange(0, n as int) =~= ws);
    }
    r
}

/// The sound handler's decision for one bus event.  A chat message
/// yields the speech request to publish — the caption line-wrapped, the
/// spoken text verbatim — and the sample files to play for its words;
/// every other event is skipped.
pub fn sound_step(event: &Event, available: &Vec<String>) -> (r: Option<
    (UberDuckRequest, Vec<String>),
>)
    requires
        match event {
            Event::UserMessage(m) => m.contents@.len() + 20 <= usize::MAX,
            _ => true,
        },
    ensures
        match event {
            Event::UserMessage(m) => r matches Some(p) && {
                &&& p.0.message@ == wrapped_message(m.contents@)
                &&& p.0.voice_text@ == m.contents@
                &&& p.0.username@ == m.user_name@
                &&& p.1.deep_view() == matched_sound_files(
                    split_spaces(m.contents@),
                    available.deep_view(),
                )
            },
            _ => r is None,
        },
{
    match event {
        Event::UserMessage(m) => {
            let words = split_words(m.contents.as_str());
            let seal_text = wrap_text(m.contents.as_str());
            let request = UberDuckRequest {
                message: seal_text,
                voice_text: m.contents.clone(),
                username: m.user_name.clone(),
            };
            let files = sound_files_for_message(&words, available);
            Some((request, files))
        },
        _ => None,
    }
}

} // verus!
