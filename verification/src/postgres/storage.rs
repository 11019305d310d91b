//! The storage operations of the PostgreSQL adapter: from the rows that a
//! statement returned, or the driver's failure, to what the storage port
//! answers.

use vstd::prelude::*;
use vstd::std_specs::convert::FromSpecImpl;
use vstd::string::*;

use super::{DriverError, DriverErrorKind, DriverErrorView, Error, ErrorView};
use crate::model::document::{
    listed, texts, views, AddDocumentRequest, Document, DocumentView, Genre, ListDocumentsRequest,
    Timestamp,
};
use crate::model::error::{
    viewed, Error as ModelError, ErrorView as ModelErrorView, StorageErrorKind,
};
use crate::text::same_text;

verus! {

/// The genre as the database has it: an enumeration of its own, whose
/// labels are the variants' names in lower case.
#[derive(Debug, Clone, Copy, PartialEq, Eq, Structural)]
pub enum GenreEntity {
    Tutorial,
    Howto,
    Background,
    Reference,
    Tbd,
}

impl From<GenreEntity> for Genre {
    fn from(entity: GenreEntity) -> (genre: Genre) {
        match entity {
            GenreEntity::Tutorial => Genre::Tutorial,
            GenreEntity::Howto => Genre::Howto,
            GenreEntity::Background => Genre::Background,
            GenreEntity::Reference => Genre::Reference,
            GenreEntity::Tbd => Genre::Tbd,
        }
    }
}

impl FromSpecImpl<GenreEntity> for Genre {
    open spec fn obeys_from_spec() -> bool {
        true
    }

    open spec fn from_spec(entity: GenreEntity) -> Genre {
        entity.genre()
    }
}

impl From<&Genre> for GenreEntity {
    fn from(entity: &Genre) -> (genre: GenreEntity) {
        match entity {
            Genre::Tutorial => GenreEntity::Tutorial,
            Genre::Howto => GenreEntity::Howto,
            Genre::Background => GenreEntity::Background,
            Genre::Reference => GenreEntity::Reference,
            Genre::Tbd => GenreEntity::Tbd,
        }
    }
}

impl FromSpecImpl<&Genre> for GenreEntity {
    open spec fn obeys_from_spec() -> bool {
        true
    }

    open spec fn from_spec(entity: &Genre) -> GenreEntity {
        GenreEntity::of(*entity)
    }
}

impl GenreEntity {
    /// The genre of the domain that this one stands for.
    pub open spec fn genre(self) -> Genre {
        match self {
            GenreEntity::Tutorial => Genre::Tutorial,
            GenreEntity::Howto => Genre::Howto,
            GenreEntity::Background => Genre::Background,
            GenreEntity::Reference => Genre::Reference,
            GenreEntity::Tbd => Genre::Tbd,
        }
    }

    /// The genre of the database that stands for one of the domain.
    pub open spec fn of(genre: Genre) -> GenreEntity {
        match genre {
            Genre::Tutorial => GenreEntity::Tutorial,
            Genre::Howto => GenreEntity::Howto,
            Genre::Background => GenreEntity::Background,
            Genre::Reference => GenreEntity::Reference,
            Genre::Tbd => GenreEntity::Tbd,
        }
    }

    /// The label of the genre in the database.
    pub open spec fn label(self) -> Seq<char> {
        match self {
            GenreEntity::Tutorial => "tutorial"@,
            GenreEntity::Howto => "howto"@,
            GenreEntity::Background => "background"@,
            GenreEntity::Reference => "reference"@,
            GenreEntity::Tbd => "tbd"@,
        }
    }

    /// The genre that a label of the database stands for, if any.
    pub open spec fn labelled(label: Seq<char>) -> Option<GenreEntity> {
        if label == "tutorial"@ {
            Some(GenreEntity::Tutorial)
        } else if label == "howto"@ {
            Some(GenreEntity::Howto)
        } else if label == "background"@ {
            Some(GenreEntity::Background)
        } else if label == "reference"@ {
            Some(GenreEntity::Reference)
        } else if label == "tbd"@ {
            Some(GenreEntity::Tbd)
        } else {
            None
        }
    }

    /// The label of the genre in the database.
    pub fn as_label(&self) -> (label: &'static str)
        ensures
            label@ == self.label(),
    {
        match self {
            GenreEntity::Tutorial => "tutorial",
            GenreEntity::Howto => "howto",
            GenreEntity::Background => "background",
            GenreEntity::Reference => "reference",
            GenreEntity::Tbd => "tbd",
        }
    }

    /// Reads a label of the database. A label that the model does not
    /// know is not read as any genre.
    pub fn from_label(label: &str) -> (entity: Option<GenreEntity>)
        ensures
            entity == GenreEntity::labelled(label@),
    {
        if same_text(label, "tutorial") {
            Some(GenreEntity::Tutorial)
        } else if same_text(label, "howto") {
            Some(GenreEntity::Howto)
        } else if same_text(label, "background") {
            Some(GenreEntity::Background)
        } else if same_text(label, "reference") {
            Some(GenreEntity::Reference)
        } else if same_text(label, "tbd") {
            Some(GenreEntity::Tbd)
        } else {
            None
        }
    }
}

/// Reading the label of a genre gives that genre back.
pub proof fn lemma_label_reads_back(entity: GenreEntity)
    ensures
        GenreEntity::labelled(entity.label()) == Some(entity),
{
    reveal_strlit("tutorial");
    reveal_strlit("howto");
    reveal_strlit("background");
    reveal_strlit("reference");
    reveal_strlit("tbd");
    assert("tutorial"@.len() == 8);
    assert("howto"@.len() == 5);
    assert("background"@.len() == 10);
    assert("reference"@.len() == 9);
    assert("tbd"@.len() == 3);
}

/// A genre of the domain and the genre of the database that stands for it
/// are each the other's conversion.
pub proof fn lemma_genre_entity_round_trip(genre: Genre, entity: GenreEntity)
    ensures
        GenreEntity::of(genre).genre() == genre,
        GenreEntity::of(entity.genre()) == entity,
{
}

/// The columns of a row that a statement of the adapter returns, in the
/// order of the columns. The genre comes as its label.
#[derive(Debug, PartialEq, Eq)]
pub struct DocumentRow {
    pub id: u128,
    pub title: String,
    pub outline: String,
    pub content: String,
    pub html: String,
    pub tags: Vec<String>,
    pub genre: String,
    pub created_at: Timestamp,
    pub updated_at: Timestamp,
}

/// What a `DocumentRow` holds.
pub struct DocumentRowView {
    pub id: u128,
    pub title: Seq<char>,
    pub outline: Seq<char>,
    pub content: Seq<char>,
    pub html: Seq<char>,
    pub tags: Seq<Seq<char>>,
    pub genre: Seq<char>,
    pub created_at: Timestamp,
    pub updated_at: Timestamp,
}

impl View for DocumentRow {
    type V = DocumentRowView;

    open spec fn view(&self) -> DocumentRowView {
        DocumentRowView {
            id: self.id,
            title: self.title@,
            outline: self.outline@,
            content: self.content@,
            html: self.html@,
            tags: texts(self.tags@),
            genre: self.genre@,
            created_at: self.created_at,
            updated_at: self.updated_at,
        }
    }
}

/// The views of a sequence of rows.
pub open spec fn row_views(rows: Seq<DocumentRow>) -> Seq<DocumentRowView> {
    rows.map_values(|row: DocumentRow| row@)
}

/// A document as the database holds it: a row whose genre the model
/// knows.
#[derive(Debug, PartialEq, Eq)]
pub struct DocumentEntity {
    pub id: u128,
    pub title: String,
    pub outline: String,
    pub content: String,
    pub html: String,
    pub tags: Vec<String>,
    pub genre: GenreEntity,
    pub created_at: Timestamp,
    pub updated_at: Timestamp,
}

impl DocumentRowView {
    /// The model knows the genre of the row.
    pub open spec fn readable(self) -> bool {
        GenreEntity::labelled(self.genre) is Some
    }

    /// The document that a readable row stands for.
    pub open spec fn document(self) -> DocumentView {
        DocumentView {
            id: self.id,
            title: self.title,
            outline: self.outline,
            content: self.content,
            html: self.html,
            tags: self.tags,
            genre: GenreEntity::labelled(self.genre)->Some_0.genre(),
            created_at: self.created_at,
            updated_at: self.updated_at,
        }
    }

    /// The error on a row that is not readable.
    pub open spec fn violation(self) -> ErrorView {
        ErrorView::ModelViolation { details: "unknown genre: "@ + self.genre }
    }
}

impl DocumentEntity {
    /// The document of the domain that the entity stands for: field for
    /// field, the genre by its conversion.
    pub open spec fn document(self) -> Document {
        Document {
            id: self.id,
            title: self.title,
            outline: self.outline,
            content: self.content,
            html: self.html,
            tags: self.tags,
            genre: self.genre.genre(),
            created_at: self.created_at,
            updated_at: self.updated_at,
        }
    }

    /// Reads a row. The row is refused, as a violation of the model, where
    /// the model does not know its genre, and nowhere else.
    pub fn from_row(row: DocumentRow) -> (result: Result<DocumentEntity, Error>)
        ensures
            match result {
                Ok(entity) => row@.readable() && entity.document()@ == row@.document(),
                Err(error) => !row@.readable() && error@ == row@.violation(),
            },
    {
        let DocumentRow { id, title, outline, content, html, tags, genre, created_at, updated_at } =
            row;
        match GenreEntity::from_label(genre.as_str()) {
            Some(genre) => Ok(
                DocumentEntity {
                    id,
                    title,
                    outline,
                    content,
                    html,
                    tags,
                    genre,
                    created_at,
                    updated_at,
                },
            ),
            None => Err(
                Error::ModelViolation {
                    details: String::from_str("unknown genre: ").concat(genre.as_str()),
                },
            ),
        }
    }
}

impl From<DocumentEntity> for Document {
    fn from(entity: DocumentEntity) -> (document: Document) {
        let DocumentEntity {
            id,
            title,
            outline,
            content,
            html,
            tags,
            genre,
            created_at,
            updated_at,
        } = entity;
        Document {
            id,
            title,
            outline,
            content,
            html,
            tags,
            genre: Genre::from(genre),
            created_at,
            updated_at,
        }
    }
}

impl FromSpecImpl<DocumentEntity> for Document {
    open spec fn obeys_from_spec() -> bool {
        true
    }

    open spec fn from_spec(entity: DocumentEntity) -> Document {
        entity.document()
    }
}

/// The statement that lists documents. Its parameters are the limit, then
/// the offset.
pub const LIST_DOCUMENTS: &'static str =
    "SELECT * FROM api.list_documents($1::INTEGER, $2::INTEGER)";

/// The statement that adds a document and returns it as stored. Its
/// parameters are the fields of the request in their order, the genre by
/// its label.
pub const ADD_DOCUMENT: &'static str =
    "SELECT * FROM api.add_document($1::TEXT, $2::TEXT, $3::TEXT, $4::TEXT, $5::TEXT, $6::TEXT[], $7::main.GENRE)";

/// The statement that fetches the document of an id, out of the listing
/// of all documents. Its parameter is the id.
pub const GET_DOCUMENT: &'static str =
    "SELECT * FROM api.list_documents(2147483647, 0) AS document WHERE document.id = $1";

/// What is bound to the statement that lists, in the order of its
/// parameters.
#[derive(Debug, Clone, Copy, PartialEq, Eq, Structural)]
pub struct ListDocumentsParameters {
    pub limit: i64,
    pub offset: i64,
}

/// What is bound to the statement that adds, in the order of its
/// parameters.
#[derive(Debug, PartialEq, Eq)]
pub struct AddDocumentParameters<'a> {
    pub id: u128,
    pub title: &'a String,
    pub outline: &'a String,
    pub content: &'a String,
    pub html: &'a String,
    pub tags: &'a Vec<String>,
    pub genre: &'static str,
}

/// What a listing binds: the limit and the offset of the request, as the
/// integers of the database.
pub fn list_documents_parameters(request: &ListDocumentsRequest) -> (parameters:
    ListDocumentsParameters)
    ensures
        parameters.limit == request.limit,
        parameters.offset == request.offset,
{
    ListDocumentsParameters { limit: request.limit as i64, offset: request.offset as i64 }
}

/// What an addition binds: the fields of the request, the genre by the
/// label of the genre of the database that stands for it.
pub fn add_document_parameters<'a>(request: &'a AddDocumentRequest) -> (parameters:
    AddDocumentParameters<'a>)
    ensures
        parameters.id == request.id,
        *parameters.title == request.title,
        *parameters.outline == request.outline,
        *parameters.content == request.content,
        *parameters.html == request.html,
        *parameters.tags == request.tags,
        parameters.genre@ == GenreEntity::of(request.genre).label(),
{
    AddDocumentParameters {
        id: request.id,
        title: &request.title,
        outline: &request.outline,
        content: &request.content,
        html: &request.html,
        tags: &request.tags,
        genre: GenreEntity::from(&request.genre).as_label(),
    }
}

/// The model can read every row.
pub open spec fn all_readable(rows: Seq<DocumentRowView>) -> bool {
    forall|i: int| 0 <= i < rows.len() ==> (#[trigger] rows[i]).readable()
}

/// The row at `place` is the first that the model cannot read.
pub open spec fn first_unreadable(rows: Seq<DocumentRowView>, place: int) -> bool {
    &&& 0 <= place < rows.len()
    &&& !rows[place].readable()
    &&& forall|i: int| 0 <= i < place ==> (#[trigger] rows[i]).readable()
}

/// The documents that readable rows stand for, each in the place of its
/// row.
pub open spec fn documents_of(rows: Seq<DocumentRowView>) -> Seq<DocumentView> {
    rows.map_values(|row: DocumentRowView| row.document())
}

/// What the adapter makes of the rows of a statement: their documents, or
/// the violation of the first row that the model cannot read.
pub open spec fn rows_read(rows: Seq<DocumentRowView>) -> Result<Seq<DocumentView>, ErrorView> {
    if all_readable(rows) {
        Ok(documents_of(rows))
    } else {
        Err(rows[choose|place: int| first_unreadable(rows, place)].violation())
    }
}

/// No two rows are each the first that the model cannot read.
pub proof fn lemma_first_unreadable_is_one(rows: Seq<DocumentRowView>, place: int, other: int)
    requires
        first_unreadable(rows, place),
        first_unreadable(rows, other),
    ensures
        place == other,
{
    if place < other {
        assert(rows[place].readable());
    }
    if other < place {
        assert(rows[other].readable());
    }
}

/// Reads the rows of a statement, in their order.
pub fn documents_from_rows(rows: Vec<DocumentRow>) -> (result: Result<Vec<Document>, Error>)
    ensures
        listed(result) == rows_read(row_views(rows@)),
{
    let ghost all = rows@;
    let mut documents: Vec<Document> = Vec::new();
    for row in iter: rows
        invariant
            iter.seq() == all,
            documents@.len() == iter.index(),
            forall|k: int|
                0 <= k < iter.index() ==> {
                    &&& (#[trigger] row_views(all)[k]).readable()
                    &&& documents@[k]@ == row_views(all)[k].document()
                },
    {
        let ghost place = iter.index();
        assert(row_views(all)[place] == row@);
        match DocumentEntity::from_row(row) {
            Ok(entity) => {
                documents.push(Document::from(entity));
            },
            Err(error) => {
                proof {
                    let held = row_views(all);
                    assert(first_unreadable(held, place));
                    let chosen = choose|chosen: int| first_unreadable(held, chosen);
                    lemma_first_unreadable_is_one(held, place, chosen);
                }
                return Err(error);
            },
        }
    }
    assert(views(documents@) =~= documents_of(row_views(all)));
    Ok(documents)
}

/// What a statement brought by what it holds: the views of its rows, or
/// the view of the driver's failure.
pub open spec fn fetched_rows(fetched: Result<Vec<DocumentRow>, DriverError>) -> Result<
    Seq<DocumentRowView>,
    DriverErrorView,
> {
    match fetched {
        Ok(rows) => Ok(row_views(rows@)),
        Err(failure) => Err(failure@),
    }
}

/// What crosses the storage port when a statement has run: the documents
/// of its rows; or the driver's failure, or the violation of the first row
/// that the model cannot read, as an error of the domain.
pub open spec fn listing_answer(
    fetched: Result<Seq<DocumentRowView>, DriverErrorView>,
) -> Result<Seq<DocumentView>, ModelErrorView> {
    match fetched {
        Ok(rows) => match rows_read(rows) {
            Ok(documents) => Ok(documents),
            Err(violation) => Err(violation.in_domain()),
        },
        Err(failure) => Err(failure.reported().in_domain()),
    }
}

/// The answer to a listing, from what the statement returned.
pub fn list_documents(fetched: Result<Vec<DocumentRow>, DriverError>) -> (result: Result<
    Vec<Document>,
    ModelError,
>)
    ensures
        listed(result) == listing_answer(fetched_rows(fetched)),
{
    match fetched {
        Ok(rows) => match documents_from_rows(rows) {
            Ok(documents) => Ok(documents),
            Err(error) => Err(ModelError::from(error)),
        },
        Err(failure) => Err(ModelError::from(Error::from(failure))),
    }
}

/// What crosses the storage port when a statement that returns one row
/// has run: the row's document; or the driver's failure, or the violation
/// of the row, as an error of the domain.
pub open spec fn row_answer(
    fetched: Result<DocumentRowView, DriverErrorView>,
) -> Result<DocumentView, ModelErrorView> {
    match fetched {
        Ok(row) => if row.readable() {
            Ok(row.document())
        } else {
            Err(row.violation().in_domain())
        },
        Err(failure) => Err(failure.reported().in_domain()),
    }
}

/// A statement that the driver could not run answers with no document.
/// Where the database refused to store twice, the answer is a unique
/// violation; where the statement found no row, it is that the entity
/// does not exist.
pub proof fn lemma_failed_statement_answers(failure: DriverErrorView)
    ensures
        row_answer(Err(failure)) is Err,
        failure.kind == DriverErrorKind::UniqueViolation ==> row_answer(Err(failure))->Err_0.kind()
            == StorageErrorKind::UniqueViolation,
        failure.kind == DriverErrorKind::RowNotFound ==> row_answer(Err(failure))->Err_0.kind()
            == StorageErrorKind::NotFound,
        listing_answer(Err(failure)) == Err::<Seq<DocumentView>, ModelErrorView>(
            row_answer(Err(failure))->Err_0,
        ),
{
}

/// Reads the one row of a statement.
fn document_from_row(fetched: Result<DocumentRow, DriverError>) -> (result: Result<
    Document,
    ModelError,
>)
    ensures
        viewed(result) == row_answer(viewed(fetched)),
{
    match fetched {
        Ok(row) => match DocumentEntity::from_row(row) {
            Ok(entity) => Ok(Document::from(entity)),
            Err(error) => Err(ModelError::from(error)),
        },
        Err(failure) => Err(ModelError::from(Error::from(failure))),
    }
}

/// The answer to an addition, from the row that the statement returned
/// for the stored document. Where the database refused the statement
/// because the id is taken, the answer is a unique violation.
pub fn add_document(fetched: Result<DocumentRow, DriverError>) -> (result: Result<
    Document,
    ModelError,
>)
    ensures
        viewed(result) == row_answer(viewed(fetched)),
{
    document_from_row(fetched)
}

/// The answer to a fetch, from the row that the statement returned. A
/// statement that found no row answers that the document does not exist.
pub fn get_document(fetched: Result<DocumentRow, DriverError>) -> (result: Result<
    Document,
    ModelError,
>)
    ensures
        viewed(result) == row_answer(viewed(fetched)),
{
    document_from_row(fetched)
}

} // verus!
