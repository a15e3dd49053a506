//! The censor: the list of blocked words and what is said when it changes.

use crate::text::{enclose, same_text};
use vstd::prelude::*;

verus! {

/// The name of the rule that holds the blocked words.
pub const PI_BOT_AUTOMOD_RULE: &'static str = "Pi-Bot - Staff-Submitted Blocked Words";

/// The words of a list, by their text.
pub open spec fn texts(words: Seq<String>) -> Seq<Seq<char>> {
    words.map_values(|w: String| w@)
}

/// The list without every occurrence of `word`, the rest in order.
pub open spec fn without_word(words: Seq<Seq<char>>, word: Seq<char>) -> Seq<Seq<char>>
    decreases words.len(),
{
    if words.len() == 0 {
        words
    } else if words.last() == word {
        without_word(words.drop_last(), word)
    } else {
        without_word(words.drop_last(), word).push(words.last())
    }
}

/// Removing a word leaves no occurrence of it and never lengthens the list;
/// the length stays exactly where the word did not occur.
pub proof fn lemma_without_word(words: Seq<Seq<char>>, word: Seq<char>)
    ensures
        !without_word(words, word).contains(word),
        without_word(words, word).len() <= words.len(),
        (without_word(words, word).len() == words.len()) == !words.contains(word),
        !words.contains(word) ==> without_word(words, word) == words,
    decreases words.len(),
{
    if words.len() > 0 {
        let rest = words.drop_last();
        lemma_without_word(rest, word);
        let kept = without_word(rest, word);
        if words.last() == word {
            assert(words[words.len() - 1] == word);
        } else {
            let out = kept.push(words.last());
            assert forall|i: int| 0 <= i < out.len() implies out[i] != word by {
                if i < kept.len() {
                    assert(kept.contains(out[i]));
                }
            }
            if rest.contains(word) {
                let j = choose|j: int| 0 <= j < rest.len() && rest[j] == word;
                assert(words[j] == word);
            }
            if words.contains(word) {
                let j = choose|j: int| 0 <= j < words.len() && words[j] == word;
                assert(rest[j] == word);
            }
            if !words.contains(word) {
                assert(kept == rest);
                assert(out =~= words);
            }
        }
    }
}

/// How the removal of a word ends.
#[derive(Debug, Clone, PartialEq, Eq)]
pub enum RemoveWord {
    /// There are no words at all.
    EmptyList,
    /// The word was blocked; this is the list without it.
    Removed(Vec<String>),
    /// The word is not on the list.
    NotListed,
}

/// The outcome of a removal, by its text.
pub open spec fn remove_word_of(words: Seq<Seq<char>>, word: Seq<char>) -> Option<Seq<Seq<char>>> {
    if words.contains(word) {
        Some(without_word(words, word))
    } else {
        None
    }
}

/// Takes `word_to_remove` off the list of blocked words.
pub fn remove_word(strings: Vec<String>, word_to_remove: &str) -> (outcome: RemoveWord)
    ensures
        match outcome {
            RemoveWord::EmptyList => strings@.len() == 0,
            RemoveWord::Removed(kept) => strings@.len() > 0 && texts(strings@).contains(
                word_to_remove@,
            ) && texts(kept@) == without_word(texts(strings@), word_to_remove@),
            RemoveWord::NotListed => strings@.len() > 0 && !texts(strings@).contains(
                word_to_remove@,
            ),
        },
{
    let old_word_list_len = strings.len();
    if old_word_list_len == 0 {
        return RemoveWord::EmptyList;
    }
    let ghost all = texts(strings@);
    let mut new_word_list: Vec<String> = Vec::new();
    let mut i: usize = 0;
    while i < strings.len()
        invariant
            i <= strings@.len(),
            all == texts(strings@),
            texts(new_word_list@) == without_word(all.take(i as int), word_to_remove@),
        decreases strings@.len() - i,
    {
        proof {
            let next = all.take(i + 1);
            assert(next.drop_last() =~= all.take(i as int));
            assert(next.last() == strings@[i as int]@);
        }
        if !same_text(strings[i].as_str(), word_to_remove) {
            let ghost before = new_word_list@;
            new_word_list.push(strings[i].clone());
            assert(texts(new_word_list@) =~= texts(before).push(strings@[i as int]@));
        }
        i += 1;
    }
    proof {
        assert(all.take(i as int) =~= all);
        lemma_without_word(all, word_to_remove@);
    }
    if new_word_list.len() != old_word_list_len {
        RemoveWord::Removed(new_word_list)
    } else {
        RemoveWord::NotListed
    }
}

/// Puts `word_to_add` at the end of the list of blocked words.
pub fn add_word(strings: &mut Vec<String>, word_to_add: &str)
    ensures
        texts(final(strings)@) == texts(old(strings)@).push(word_to_add@),
{
    strings.push(String::from_str(word_to_add));
    assert(texts(strings@) =~= texts(old(strings)@).push(word_to_add@));
}

/// What is said once a word has been added.
pub fn added_message(word: &str) -> (message: String)
    ensures
        message@ == "Added word `"@ + word@ + "` to automod censor ruleset"@,
{
    enclose("Added word `", word, "` to automod censor ruleset")
}

/// What is said of a removal.
pub open spec fn remove_word_text(outcome: RemoveWord, word: Seq<char>) -> Seq<char> {
    match outcome {
        RemoveWord::EmptyList => "Word list is empty"@,
        RemoveWord::Removed(_) => "Removed word `"@ + word + "` from automod censor ruleset"@,
        RemoveWord::NotListed => "Word `"@ + word + "` is not within automod censor ruleset"@,
    }
}

/// Writes what is said of a removal.
pub fn remove_word_message(outcome: &RemoveWord, word: &str) -> (message: String)
    ensures
        message@ == remove_word_text(*outcome, word@),
{
    match outcome {
        RemoveWord::EmptyList => String::from_str("Word list is empty"),
        RemoveWord::Removed(_) => enclose(
            "Removed word `",
            word,
            "` from automod censor ruleset",
        ),
        RemoveWord::NotListed => enclose("Word `", word, "` is not within automod censor ruleset"),
    }
}

/// A channel of the server, as far as the censor looks at it.
#[derive(Debug, Clone, PartialEq, Eq)]
pub struct ChannelRef {
    pub is_text: bool,
    pub name: String,
    pub id: u64,
}

/// Whether the channel at `i` is the first text channel with the name `name`.
pub open spec fn is_first_text_channel(channels: Seq<ChannelRef>, name: Seq<char>, i: int) -> bool {
    &&& 0 <= i < channels.len()
    &&& channels[i].is_text
    &&& channels[i].name@ == name
    &&& forall|j: int|
        0 <= j < i ==> !((#[trigger] channels[j]).is_text && channels[j].name@ == name)
}

/// The id of the first text channel with the name `name`.
pub fn first_text_channel_named(channels: &[ChannelRef], name: &str) -> (id: Option<u64>)
    ensures
        match id {
            Some(found) => exists|i: int|
                is_first_text_channel(channels@, name@, i) && (#[trigger] channels@[i]).id
                    == found,
            None => forall|j: int|
                0 <= j < channels@.len() ==> !((#[trigger] channels@[j]).is_text
                    && channels@[j].name@ == name@),
        },
{
    let mut i: usize = 0;
    while i < channels.len()
        invariant
            i <= channels@.len(),
            forall|j: int|
                0 <= j < i ==> !((#[trigger] channels@[j]).is_text && channels@[j].name@
                    == name@),
        decreases channels@.len() - i,
    {
        if channels[i].is_text && same_text(channels[i].name.as_str(), name) {
            assert(is_first_text_channel(channels@, name@, i as int));
            return Some(channels[i].id);
        }
        i += 1;
    }
    None
}

} // verus!
