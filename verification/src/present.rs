//! The listing: for each story a numbered entry with its score, its title,
//! its link where it has one, and its author. How an entry is coloured and
//! put on the screen is left to the driver.

use vstd::prelude::*;
use vstd::string::StringExecFns;
use crate::story::{Story, StoryView};
use crate::text::{
    align_right, center, centered, decimal, decimal_text, right_aligned, signed_decimal,
    signed_decimal_text,
};

verus! {

/// The parts of one entry of the listing.
#[derive(Clone, Debug, PartialEq, Eq)]
pub struct Entry {
    /// The place of the story in the listing, counted from one.
    pub index: String,
    /// The score, in brackets.
    pub score: String,
    pub title: String,
    /// The link, for a story that has one.
    pub link: Option<String>,
    /// The author, introduced by `by`.
    pub author: String,
}

/// What an [`Entry`] holds, as mathematical values.
pub struct EntryView {
    pub index: Seq<char>,
    pub score: Seq<char>,
    pub title: Seq<char>,
    pub link: Option<Seq<char>>,
    pub author: Seq<char>,
}

impl View for Entry {
    type V = EntryView;

    open spec fn view(&self) -> EntryView {
        EntryView {
            index: self.index@,
            score: self.score@,
            title: self.title@,
            link: match self.link {
                Some(link) => Some(link@),
                None => None,
            },
            author: self.author@,
        }
    }
}

/// The label of the place `position`, counted from nought: the number of
/// the place, counted from one, at the right of two columns, and a full
/// stop.
pub open spec fn index_label(position: nat) -> Seq<char> {
    right_aligned(decimal(position + 1), 2) + "."@
}

/// The label of a score: the score in the middle of four columns, in
/// brackets.
pub open spec fn score_label(score: int) -> Seq<char> {
    "["@ + centered(signed_decimal(score), 4) + "]"@
}

/// The line that names the author.
pub open spec fn author_label(by: Seq<char>) -> Seq<char> {
    "by "@ + by
}

/// The entry of the story that stands at `position`, counted from nought.
pub open spec fn entry_of(position: nat, story: StoryView) -> EntryView {
    EntryView {
        index: index_label(position),
        score: score_label(story.score),
        title: story.title,
        link: story.url,
        author: author_label(story.by),
    }
}

/// The listing of a collection: one entry for each story, in the order of
/// the collection and numbered by the place in it.
pub open spec fn listing(records: Seq<Story>) -> Seq<EntryView> {
    Seq::new(records.len(), |i: int| entry_of(i as nat, records[i]@))
}

/// A run of entries, each taken by its view.
pub open spec fn entries_view(entries: Seq<Entry>) -> Seq<EntryView> {
    Seq::new(entries.len(), |i: int| entries[i]@)
}

/// The entry of `story` at `position`, counted from nought.
pub fn entry(position: usize, story: &Story) -> (e: Entry)
    requires
        position < usize::MAX,
    ensures
        e@ == entry_of(position as nat, story@),
{
    let number = decimal_text((position + 1) as u64);
    let mut index = align_right(number.as_str(), 2);
    index.append(".");
    let points = signed_decimal_text(story.score as i64);
    let mut score = String::from_str("[");
    score.append(center(points.as_str(), 4).as_str());
    score.append("]");
    let mut author = String::from_str("by ");
    author.append(story.by.as_str());
    let link = match &story.url {
        Some(url) => Some(url.clone()),
        None => None,
    };
    Entry { index, score, title: story.title.clone(), link, author }
}

/// Lays a collection out as a listing.
pub fn render(records: &Vec<Story>) -> (entries: Vec<Entry>)
    ensures
        entries_view(entries@) == listing(records@),
{
    let mut entries: Vec<Entry> = Vec::new();
    let mut position: usize = 0;
    while position < records.len()
        invariant
            position <= records.len(),
            entries.len() == position,
            forall|i: int| 0 <= i < position ==> (#[trigger] entries[i])@ == entry_of(i as nat, records[i]@),
        decreases records.len() - position,
    {
        let e = entry(position, &records[position]);
        entries.push(e);
        position = position + 1;
    }
    assert(entries_view(entries@) =~= listing(records@));
    entries
}

} // verus!
