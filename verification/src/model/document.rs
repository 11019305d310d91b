//! Documents, their genre, and the requests that list, add and fetch them.

use vstd::prelude::*;

use crate::text::same_text;

verus! {

/// The closed classification of a document.
#[derive(Debug, Clone, Copy, PartialEq, Eq, Structural)]
pub enum Genre {
    Tutorial,
    Howto,
    Background,
    Reference,
    Tbd,
}

/// The genre of a document whose genre was not given.
pub fn default_genre() -> (genre: Genre)
    ensures
        genre == Genre::Tbd,
{
    Genre::Tbd
}

impl Genre {
    /// The name of the genre.
    pub open spec fn name(self) -> Seq<char> {
        match self {
            Genre::Tutorial => "tutorial"@,
            Genre::Howto => "howto"@,
            Genre::Background => "background"@,
            Genre::Reference => "reference"@,
            Genre::Tbd => "to be decided"@,
        }
    }

    /// The genre that a text stands for: one of the four named genres where
    /// the text is exactly its name, and `Tbd` for every other text.
    pub open spec fn parsed(text: Seq<char>) -> Genre {
        if text == "tutorial"@ {
            Genre::Tutorial
        } else if text == "howto"@ {
            Genre::Howto
        } else if text == "background"@ {
            Genre::Background
        } else if text == "reference"@ {
            Genre::Reference
        } else {
            Genre::Tbd
        }
    }

    /// The name under which the genre is shown.
    pub fn as_str(&self) -> (name: &'static str)
        ensures
            name@ == self.name(),
    {
        match self {
            Genre::Tutorial => "tutorial",
            Genre::Howto => "howto",
            Genre::Background => "background",
            Genre::Reference => "reference",
            Genre::Tbd => "to be decided",
        }
    }

    /// Reads a genre. No text is refused: one that names no genre reads as
    /// `Tbd`, and names are matched letter for letter, case included.
    pub fn from_str(input: &str) -> (result: Result<Genre, ()>)
        ensures
            result == Ok::<Genre, ()>(Genre::parsed(input@)),
    {
        if same_text(input, "tutorial") {
            Ok(Genre::Tutorial)
        } else if same_text(input, "howto") {
            Ok(Genre::Howto)
        } else if same_text(input, "background") {
            Ok(Genre::Background)
        } else if same_text(input, "reference") {
            Ok(Genre::Reference)
        } else {
            Ok(Genre::Tbd)
        }
    }
}

/// A text that is the name of no genre reads as `Tbd`.
pub proof fn lemma_unknown_genre_reads_as_tbd(text: Seq<char>)
    requires
        forall|genre: Genre| text != genre.name(),
    ensures
        Genre::parsed(text) == Genre::Tbd,
{
    assert(text != Genre::Tutorial.name());
    assert(text != Genre::Howto.name());
    assert(text != Genre::Background.name());
    assert(text != Genre::Reference.name());
}

/// Reading the name of a genre gives that genre back.
pub proof fn lemma_genre_name_reads_back(genre: Genre)
    ensures
        Genre::parsed(genre.name()) == genre,
{
    reveal_strlit("tutorial");
    reveal_strlit("howto");
    reveal_strlit("background");
    reveal_strlit("reference");
    reveal_strlit("to be decided");
    assert("tutorial"@.len() == 8);
    assert("howto"@.len() == 5);
    assert("background"@.len() == 10);
    assert("reference"@.len() == 9);
    assert("to be decided"@.len() == 13);
}

impl std::str::FromStr for Genre {
    type Err = ();

    fn from_str(input: &str) -> (result: Result<Genre, ()>)
        ensures
            result == Ok::<Genre, ()>(Genre::parsed(input@)),
    {
        Genre::from_str(input)
    }
}

/// An instant: whole seconds since the Unix epoch and the nanoseconds into
/// that second.
#[derive(Debug, Clone, Copy, PartialEq, Eq, Structural)]
pub struct Timestamp {
    pub seconds: i64,
    pub nanoseconds: u32,
}

impl Timestamp {
    /// `self` is `other` or comes before it.
    pub open spec fn not_after(self, other: Timestamp) -> bool {
        self.seconds < other.seconds || (self.seconds == other.seconds && self.nanoseconds
            <= other.nanoseconds)
    }

    pub fn is_not_after(&self, other: &Timestamp) -> (holds: bool)
        ensures
            holds == self.not_after(*other),
    {
        self.seconds < other.seconds || (self.seconds == other.seconds && self.nanoseconds
            <= other.nanoseconds)
    }
}

/// The characters of each string of a sequence.
pub open spec fn texts(strings: Seq<String>) -> Seq<Seq<char>> {
    strings.map_values(|s: String| s@)
}

/// A stored document. The caller chooses `id`; the storage backend assigns
/// the two timestamps.
#[derive(Debug, PartialEq, Eq)]
pub struct Document {
    pub id: u128,
    pub title: String,
    pub outline: String,
    pub content: String,
    pub html: String,
    pub tags: Vec<String>,
    pub genre: Genre,
    pub created_at: Timestamp,
    pub updated_at: Timestamp,
}

/// What a `Document` holds.
pub struct DocumentView {
    pub id: u128,
    pub title: Seq<char>,
    pub outline: Seq<char>,
    pub content: Seq<char>,
    pub html: Seq<char>,
    pub tags: Seq<Seq<char>>,
    pub genre: Genre,
    pub created_at: Timestamp,
    pub updated_at: Timestamp,
}

impl View for Document {
    type V = DocumentView;

    open spec fn view(&self) -> DocumentView {
        DocumentView {
            id: self.id,
            title: self.title@,
            outline: self.outline@,
            content: self.content@,
            html: self.html@,
            tags: texts(self.tags@),
            genre: self.genre,
            created_at: self.created_at,
            updated_at: self.updated_at,
        }
    }
}

impl Clone for Document {
    fn clone(&self) -> (copy: Document)
        ensures
            copy@ == self@,
    {
        let tags = self.tags.clone();
        assert(tags@ =~= self.tags@);
        Document {
            id: self.id,
            title: self.title.clone(),
            outline: self.outline.clone(),
            content: self.content.clone(),
            html: self.html.clone(),
            tags,
            genre: self.genre,
            created_at: self.created_at,
            updated_at: self.updated_at,
        }
    }
}

/// The views of a sequence of documents.
pub open spec fn views(documents: Seq<Document>) -> Seq<DocumentView> {
    documents.map_values(|d: Document| d@)
}

/// The outcome of a listing by what it holds: the views of the documents
/// that came back, or the view of the error.
pub open spec fn listed<E: View>(outcome: Result<Vec<Document>, E>) -> Result<
    Seq<DocumentView>,
    E::V,
> {
    match outcome {
        Ok(documents) => Ok(views(documents@)),
        Err(error) => Err(error@),
    }
}

/// The views of a sequence with one more document are the views of the
/// sequence with one more view.
pub proof fn lemma_views_push(documents: Seq<Document>, document: Document)
    ensures
        views(documents.push(document)) == views(documents).push(document@),
{
    assert(views(documents.push(document)) =~= views(documents).push(document@));
}

/// Asks for up to `limit` documents, starting at the zero-based `offset`.
#[derive(Debug, Clone, Copy, PartialEq, Eq, Structural)]
pub struct ListDocumentsRequest {
    pub offset: u32,
    pub limit: u32,
}

/// Asks to store a new document under the `id` that the caller chose.
#[derive(Debug, PartialEq, Eq)]
pub struct AddDocumentRequest {
    pub id: u128,
    pub title: String,
    pub outline: String,
    pub content: String,
    pub html: String,
    pub tags: Vec<String>,
    pub genre: Genre,
}

/// What an `AddDocumentRequest` holds.
pub struct AddDocumentRequestView {
    pub id: u128,
    pub title: Seq<char>,
    pub outline: Seq<char>,
    pub content: Seq<char>,
    pub html: Seq<char>,
    pub tags: Seq<Seq<char>>,
    pub genre: Genre,
}

impl View for AddDocumentRequest {
    type V = AddDocumentRequestView;

    open spec fn view(&self) -> AddDocumentRequestView {
        AddDocumentRequestView {
            id: self.id,
            title: self.title@,
            outline: self.outline@,
            content: self.content@,
            html: self.html@,
            tags: texts(self.tags@),
            genre: self.genre,
        }
    }
}

impl AddDocumentRequestView {
    /// The document that stores this request with the given timestamps.
    pub open spec fn stored(self, created_at: Timestamp, updated_at: Timestamp) -> DocumentView {
        DocumentView {
            id: self.id,
            title: self.title,
            outline: self.outline,
            content: self.content,
            html: self.html,
            tags: self.tags,
            genre: self.genre,
            created_at,
            updated_at,
        }
    }
}

impl DocumentView {
    /// The request that this document answers: the document less its
    /// timestamps.
    pub open spec fn request(self) -> AddDocumentRequestView {
        AddDocumentRequestView {
            id: self.id,
            title: self.title,
            outline: self.outline,
            content: self.content,
            html: self.html,
            tags: self.tags,
            genre: self.genre,
        }
    }
}

/// Asks for the document with the given `id`.
#[derive(Debug, Clone, Copy, PartialEq, Eq, Structural)]
pub struct GetDocumentRequest {
    pub id: u128,
}

} // verus!
