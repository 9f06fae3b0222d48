use vstd::prelude::*;

verus! {

/// Name of the subcommand that reads a document or lists a collection.
pub const GET_SUB_COMMAND: &'static str = "get";

/// Name of the subcommand that deletes a document.
pub const DELETE_SUB_COMMAND: &'static str = "delete";

/// Name of the command-line argument that holds the credential path.
pub const CREDENTIALS_LOCATION_ARG: &'static str = "credentials";

/// Name of the command-line argument that holds the project id.
pub const PROJECT_ID_ARG: &'static str = "project_id";

/// Name of a subcommand's collection argument.
pub const COLLECTION_NAME: &'static str = "collection";

/// Name of a subcommand's document argument.
pub const DOCUMENT_NAME: &'static str = "document";

/// A query for one document of a collection.
#[derive(Debug, Clone)]
pub struct DocumentQuery {
    collection_name: String,
    document_name: String,
}

impl View for DocumentQuery {
    /// (collection name, document name)
    type V = (Seq<char>, Seq<char>);

    closed spec fn view(&self) -> (Seq<char>, Seq<char>) {
        (self.collection_name@, self.document_name@)
    }
}

impl DocumentQuery {
    pub fn new(collection_name: String, document_name: String) -> (r: Self)
        ensures
            r@ == (collection_name@, document_name@),
    {
        DocumentQuery { collection_name, document_name }
    }

    pub fn collection_name(&self) -> (r: &str)
        ensures
            r@ == self@.0,
    {
        self.collection_name.as_str()
    }

    pub fn document_name(&self) -> (r: &str)
        ensures
            r@ == self@.1,
    {
        self.document_name.as_str()
    }
}

/// A query for a whole collection.
#[derive(Debug, Clone)]
pub struct CollectionQuery {
    collection_name: String,
}

impl View for CollectionQuery {
    /// The collection name.
    type V = Seq<char>;

    closed spec fn view(&self) -> Seq<char> {
        self.collection_name@
    }
}

impl CollectionQuery {
    pub fn new(collection_name: String) -> (r: Self)
        ensures
            r@ == collection_name@,
    {
        CollectionQuery { collection_name }
    }

    pub fn collection_name(&self) -> (r: &str)
        ensures
            r@ == self@,
    {
        self.collection_name.as_str()
    }
}

/// The subcommand an invocation named, with its argument values.
/// `delete` always carries a document name: its grammar requires one.
#[derive(Debug, Clone)]
pub enum Subcommand {
    Get { collection: String, document: Option<String> },
    Delete { collection: String, document: String },
    Missing,
}

/// The single action an invocation selects.
#[derive(Debug, Clone)]
pub enum EntryPoint {
    GetDocument(DocumentQuery),
    ViewCollection(CollectionQuery),
    DeleteDocument(DocumentQuery),
    Usage(String),
}

impl EntryPoint {
    /// Every action but `Usage` goes to the database.
    pub fn performs_database_call(&self) -> (r: bool)
        ensures
            r == !(self is Usage),
    {
        match self {
            EntryPoint::Usage(_) => false,
            _ => true,
        }
    }
}

/// The action that a parsed subcommand selects: `get` with a document reads
/// that document, `get` without one lists the collection, `delete` deletes the
/// document, and no subcommand shows the usage text.
pub fn resolve_entry_point(command: Subcommand, usage: String) -> (r: EntryPoint)
    ensures
        match command {
            Subcommand::Get { collection, document: Some(document) } => r is GetDocument
                && r->GetDocument_0@ == (collection@, document@),
            Subcommand::Get { collection, document: None } => r is ViewCollection
                && r->ViewCollection_0@ == collection@,
            Subcommand::Delete { collection, document } => r is DeleteDocument
                && r->DeleteDocument_0@ == (collection@, document@),
            Subcommand::Missing => r is Usage && r->Usage_0@ == usage@,
        },
{
    match command {
        Subcommand::Get { collection, document: Some(document) } => EntryPoint::GetDocument(
            DocumentQuery::new(collection, document),
        ),
        Subcommand::Get { collection, document: None } => EntryPoint::ViewCollection(
            CollectionQuery::new(collection),
        ),
        Subcommand::Delete { collection, document } => EntryPoint::DeleteDocument(
            DocumentQuery::new(collection, document),
        ),
        Subcommand::Missing => EntryPoint::Usage(usage),
    }
}

} // verus!
