//! The story record and the rules by which one is read out of the members
//! of a detail payload.

use vstd::prelude::*;
use vstd::string::StringExecFns;

verus! {

/// One story as the feed describes it.
#[derive(Clone, Debug, PartialEq, Eq)]
pub struct Story {
    pub title: String,
    /// The page the story links to; stories that are plain text have none.
    pub url: Option<String>,
    pub score: i32,
    /// The name of the author.
    pub by: String,
}

/// What a [`Story`] holds, as mathematical values.
pub struct StoryView {
    pub title: Seq<char>,
    pub url: Option<Seq<char>>,
    pub score: int,
    pub by: Seq<char>,
}

impl View for Story {
    type V = StoryView;

    open spec fn view(&self) -> StoryView {
        StoryView {
            title: self.title@,
            url: match self.url {
                Some(link) => Some(link@),
                None => None,
            },
            score: self.score as int,
            by: self.by@,
        }
    }
}

/// The members of a detail payload that a story is read from.
#[derive(Copy, Clone, Debug, PartialEq, Eq, Structural)]
pub enum FieldName {
    Title,
    Url,
    Score,
    By,
}

/// Why a payload could not be decoded.
#[derive(Copy, Clone, Debug, PartialEq, Eq, Structural)]
pub enum DecodeError {
    /// The payload is not a JSON document.
    Syntax,
    /// The payload is not a list of story identifiers.
    IdList,
    /// A member that every story has is absent.
    MissingField(FieldName),
    /// A member holds a value of another kind than its field takes.
    WrongType(FieldName),
    /// A member holds an integer that its field cannot hold.
    OutOfRange(FieldName),
}

/// The key of a member in the payload.
pub open spec fn key_of(name: FieldName) -> Seq<char> {
    match name {
        FieldName::Title => "title"@,
        FieldName::Url => "url"@,
        FieldName::Score => "score"@,
        FieldName::By => "by"@,
    }
}

/// What is said of a decoding failure.
pub open spec fn decode_message(error: DecodeError) -> Seq<char> {
    match error {
        DecodeError::Syntax => "payload is not a JSON document"@,
        DecodeError::IdList => "payload is not a list of story identifiers"@,
        DecodeError::MissingField(name) => "missing field "@ + key_of(name),
        DecodeError::WrongType(name) => "wrong type of field "@ + key_of(name),
        DecodeError::OutOfRange(name) => "value out of range in field "@ + key_of(name),
    }
}

impl FieldName {
    /// The key of the member in the payload.
    pub fn key(self) -> (key: &'static str)
        ensures
            key@ == key_of(self),
    {
        match self {
            FieldName::Title => "title",
            FieldName::Url => "url",
            FieldName::Score => "score",
            FieldName::By => "by",
        }
    }
}

impl DecodeError {
    /// A line that says what is wrong with the payload.
    pub fn message(self) -> (message: String)
        ensures
            message@ == decode_message(self),
    {
        match self {
            DecodeError::Syntax => String::from_str("payload is not a JSON document"),
            DecodeError::IdList => String::from_str("payload is not a list of story identifiers"),
            DecodeError::MissingField(name) => String::from_str("missing field ").concat(
                name.key(),
            ),
            DecodeError::WrongType(name) => String::from_str("wrong type of field ").concat(
                name.key(),
            ),
            DecodeError::OutOfRange(name) => String::from_str(
                "value out of range in field ",
            ).concat(name.key()),
        }
    }
}

/// What a payload holds under one key.
#[derive(Clone, Debug, PartialEq, Eq)]
pub enum Field {
    /// The payload has no such member.
    Missing,
    Null,
    Bool(bool),
    /// A number, with its value where it is an integer of at most 64 bits.
    Number(Option<i64>),
    Text(String),
    Array,
    Object,
}

/// What a [`Field`] holds, as mathematical values.
pub enum FieldView {
    Missing,
    Null,
    Bool(bool),
    Number(Option<int>),
    Text(Seq<char>),
    Array,
    Object,
}

impl View for Field {
    type V = FieldView;

    open spec fn view(&self) -> FieldView {
        match *self {
            Field::Missing => FieldView::Missing,
            Field::Null => FieldView::Null,
            Field::Bool(b) => FieldView::Bool(b),
            Field::Number(Some(i)) => FieldView::Number(Some(i as int)),
            Field::Number(None) => FieldView::Number(None),
            Field::Text(s) => FieldView::Text(s@),
            Field::Array => FieldView::Array,
            Field::Object => FieldView::Object,
        }
    }
}

/// The four members of a detail payload that make up a story.
#[derive(Clone, Debug, PartialEq, Eq)]
pub struct ItemFields {
    pub title: Field,
    pub url: Field,
    pub score: Field,
    pub by: Field,
}

/// What an [`ItemFields`] holds, as mathematical values.
pub struct ItemFieldsView {
    pub title: FieldView,
    pub url: FieldView,
    pub score: FieldView,
    pub by: FieldView,
}

impl View for ItemFields {
    type V = ItemFieldsView;

    open spec fn view(&self) -> ItemFieldsView {
        ItemFieldsView {
            title: self.title@,
            url: self.url@,
            score: self.score@,
            by: self.by@,
        }
    }
}

/// A member that every story has: it must be there and hold a text.
pub open spec fn required_text(name: FieldName, field: FieldView) -> Result<Seq<char>, DecodeError> {
    match field {
        FieldView::Text(s) => Ok(s),
        FieldView::Missing => Err(DecodeError::MissingField(name)),
        _ => Err(DecodeError::WrongType(name)),
    }
}

/// A member that a story may lack: absent and `null` both mean none.
pub open spec fn optional_text(name: FieldName, field: FieldView) -> Result<
    Option<Seq<char>>,
    DecodeError,
> {
    match field {
        FieldView::Text(s) => Ok(Some(s)),
        FieldView::Missing => Ok(None),
        FieldView::Null => Ok(None),
        _ => Err(DecodeError::WrongType(name)),
    }
}

/// A member that every story has and that holds an integer of 32 bits.
pub open spec fn required_i32(name: FieldName, field: FieldView) -> Result<int, DecodeError> {
    match field {
        FieldView::Number(Some(i)) => if i32::MIN <= i <= i32::MAX {
            Ok(i)
        } else {
            Err(DecodeError::OutOfRange(name))
        },
        FieldView::Missing => Err(DecodeError::MissingField(name)),
        _ => Err(DecodeError::WrongType(name)),
    }
}

/// The story that four members make up, or what is wrong with the first of
/// them that does not fit, taken in the order title, url, score, author.
pub open spec fn story_of(fields: ItemFieldsView) -> Result<StoryView, DecodeError> {
    match required_text(FieldName::Title, fields.title) {
        Err(e) => Err(e),
        Ok(title) => match optional_text(FieldName::Url, fields.url) {
            Err(e) => Err(e),
            Ok(url) => match required_i32(FieldName::Score, fields.score) {
                Err(e) => Err(e),
                Ok(score) => match required_text(FieldName::By, fields.by) {
                    Err(e) => Err(e),
                    Ok(by) => Ok(StoryView { title, url, score, by }),
                },
            },
        },
    }
}

/// A decoding result with the story, if there is one, taken by its view.
pub open spec fn decoded_view(r: Result<Story, DecodeError>) -> Result<StoryView, DecodeError> {
    match r {
        Ok(story) => Ok(story@),
        Err(e) => Err(e),
    }
}

fn take_text(name: FieldName, field: Field) -> (r: Result<String, DecodeError>)
    ensures
        match r {
            Ok(s) => required_text(name, field@) == Ok::<Seq<char>, DecodeError>(s@),
            Err(e) => required_text(name, field@) == Err::<Seq<char>, DecodeError>(e),
        },
{
    match field {
        Field::Text(s) => Ok(s),
        Field::Missing => Err(DecodeError::MissingField(name)),
        _ => Err(DecodeError::WrongType(name)),
    }
}

fn take_optional_text(name: FieldName, field: Field) -> (r: Result<Option<String>, DecodeError>)
    ensures
        match r {
            Ok(Some(s)) => optional_text(name, field@) == Ok::<Option<Seq<char>>, DecodeError>(
                Some(s@),
            ),
            Ok(None) => optional_text(name, field@) == Ok::<Option<Seq<char>>, DecodeError>(None),
            Err(e) => optional_text(name, field@) == Err::<Option<Seq<char>>, DecodeError>(e),
        },
{
    match field {
        Field::Text(s) => Ok(Some(s)),
        Field::Missing => Ok(None),
        Field::Null => Ok(None),
        _ => Err(DecodeError::WrongType(name)),
    }
}

fn take_i32(name: FieldName, field: Field) -> (r: Result<i32, DecodeError>)
    ensures
        match r {
            Ok(i) => required_i32(name, field@) == Ok::<int, DecodeError>(i as int),
            Err(e) => required_i32(name, field@) == Err::<int, DecodeError>(e),
        },
{
    match field {
        Field::Number(Some(i)) => {
            if -0x8000_0000i64 <= i && i <= 0x7fff_ffffi64 {
                Ok(i as i32)
            } else {
                Err(DecodeError::OutOfRange(name))
            }
        },
        Field::Missing => Err(DecodeError::MissingField(name)),
        _ => Err(DecodeError::WrongType(name)),
    }
}

impl Story {
    /// Makes a story of the four members of a detail payload. A title, a
    /// score and an author must be there; the link may be absent or `null`.
    /// No story is made of members of which one does not fit.
    pub fn from_fields(fields: ItemFields) -> (r: Result<Story, DecodeError>)
        ensures
            decoded_view(r) == story_of(fields@),
    {
        let title = match take_text(FieldName::Title, fields.title) {
            Ok(title) => title,
            Err(e) => {
                return Err(e);
            },
        };
        let url = match take_optional_text(FieldName::Url, fields.url) {
            Ok(url) => url,
            Err(e) => {
                return Err(e);
            },
        };
        let score = match take_i32(FieldName::Score, fields.score) {
            Ok(score) => score,
            Err(e) => {
                return Err(e);
            },
        };
        let by = match take_text(FieldName::By, fields.by) {
            Ok(by) => by,
            Err(e) => {
                return Err(e);
            },
        };
        Ok(Story { title, url, score, by })
    }
}

/// Whether a member fits the field of the given name.
pub open spec fn fits(name: FieldName, field: FieldView) -> bool {
    match name {
        FieldName::Title => field is Text,
        FieldName::By => field is Text,
        FieldName::Url => field is Text || field is Missing || field is Null,
        FieldName::Score => field matches FieldView::Number(Some(i)) && i32::MIN <= i <= i32::MAX,
    }
}

/// A story is made exactly when each of the four members fits its field,
/// and it then holds what the members hold: there is no story with a part
/// missing.
pub proof fn law_story_needs_every_member(fields: ItemFieldsView)
    ensures
        story_of(fields) is Ok <==> fits(FieldName::Title, fields.title) && fits(
            FieldName::Url,
            fields.url,
        ) && fits(FieldName::Score, fields.score) && fits(FieldName::By, fields.by),
        story_of(fields) matches Ok(story) ==> fields.title == FieldView::Text(story.title)
            && fields.score == FieldView::Number(Some(story.score)) && fields.by
            == FieldView::Text(story.by) && (match story.url {
            Some(link) => fields.url == FieldView::Text(link),
            None => fields.url is Missing || fields.url is Null,
        }),
{
}

/// A payload without a title, a score or an author gives an error,
/// whatever else it holds.
pub proof fn law_required_members(fields: ItemFieldsView)
    requires
        fields.title is Missing || fields.score is Missing || fields.by is Missing,
    ensures
        story_of(fields) is Err,
{
}

/// A payload without a link, or with `null` for one, gives the story that
/// its other members make, with no link, and no error.
pub proof fn law_link_is_optional(title: Seq<char>, score: int, by: Seq<char>, url: FieldView)
    requires
        i32::MIN <= score <= i32::MAX,
        url is Missing || url is Null,
    ensures
        story_of(
            ItemFieldsView {
                title: FieldView::Text(title),
                url,
                score: FieldView::Number(Some(score)),
                by: FieldView::Text(by),
            },
        ) == Ok::<StoryView, DecodeError>(StoryView { title, url: None, score, by }),
{
}

} // verus!
