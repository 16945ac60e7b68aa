//! The bodies of the data service's requests, and what each asks the data
//! store to set.
//!
//! A request names the fields it wants set by giving them a value; a field
//! left out is not touched. The functions here list, in a fixed order, the
//! fields that a request sets beyond the ones every record must have.

use vstd::prelude::*;

verus! {

/// The answer of the health check.
#[derive(Debug)]
pub struct HealthResponse {
    pub status: String,
    pub version: String,
}

impl HealthResponse {
    /// The answer of a service of version `version` that is up.
    pub fn healthy(version: &str) -> (response: Self)
        ensures
            response.status@ == "healthy"@,
            response.version@ == version@,
    {
        HealthResponse { status: String::from_str("healthy"), version: String::from_str(version) }
    }
}

/// The value that a field is set to.
#[derive(Debug)]
pub enum FieldValue {
    /// A text.
    Text(String),
    /// A number.
    Number(i32),
    /// A link to the record with this id.
    Link(String),
}

/// One field that a request sets.
#[derive(Debug)]
pub struct FieldChange {
    pub field: &'static str,
    pub value: FieldValue,
}

/// The model of a [`FieldValue`].
pub enum ValueView {
    Text(Seq<char>),
    Number(i32),
    Link(Seq<char>),
}

/// The model of a [`FieldChange`].
pub struct ChangeView {
    pub field: Seq<char>,
    pub value: ValueView,
}

impl View for FieldChange {
    type V = ChangeView;

    open spec fn view(&self) -> ChangeView {
        ChangeView {
            field: self.field@,
            value: match self.value {
                FieldValue::Text(t) => ValueView::Text(t@),
                FieldValue::Number(n) => ValueView::Number(n),
                FieldValue::Link(id) => ValueView::Link(id@),
            },
        }
    }
}

/// The models of a sequence of changes.
pub open spec fn change_views(changes: Seq<FieldChange>) -> Seq<ChangeView> {
    changes.map_values(|c: FieldChange| c@)
}

/// The change that sets `field` to the text `value`, if there is one.
pub open spec fn text_change(field: Seq<char>, value: Option<String>) -> Seq<ChangeView> {
    match value {
        Some(v) => seq![ChangeView { field, value: ValueView::Text(v@) }],
        None => Seq::empty(),
    }
}

/// The change that links `field` to the record `id`, if there is one.
pub open spec fn link_change(field: Seq<char>, id: Option<String>) -> Seq<ChangeView> {
    match id {
        Some(v) => seq![ChangeView { field, value: ValueView::Link(v@) }],
        None => Seq::empty(),
    }
}

/// The change that sets `field` to the number `value`, if there is one.
pub open spec fn number_change(field: Seq<char>, value: Option<i32>) -> Seq<ChangeView> {
    match value {
        Some(v) => seq![ChangeView { field, value: ValueView::Number(v) }],
        None => Seq::empty(),
    }
}

fn push_text(out: &mut Vec<FieldChange>, field: &'static str, value: &Option<String>)
    ensures
        change_views(final(out)@) == change_views(old(out)@) + text_change(field@, *value),
{
    if let Some(v) = value {
        out.push(FieldChange { field, value: FieldValue::Text(v.clone()) });
        assert(change_views(out@) =~= change_views(old(out)@) + text_change(field@, *value));
    } else {
        assert(change_views(out@) =~= change_views(old(out)@) + text_change(field@, *value));
    }
}

fn push_link(out: &mut Vec<FieldChange>, field: &'static str, id: &Option<String>)
    ensures
        change_views(final(out)@) == change_views(old(out)@) + link_change(field@, *id),
{
    if let Some(v) = id {
        out.push(FieldChange { field, value: FieldValue::Link(v.clone()) });
        assert(change_views(out@) =~= change_views(old(out)@) + link_change(field@, *id));
    } else {
        assert(change_views(out@) =~= change_views(old(out)@) + link_change(field@, *id));
    }
}

fn push_number(out: &mut Vec<FieldChange>, field: &'static str, value: Option<i32>)
    ensures
        change_views(final(out)@) == change_views(old(out)@) + number_change(field@, value),
{
    if let Some(v) = value {
        out.push(FieldChange { field, value: FieldValue::Number(v) });
        assert(change_views(out@) =~= change_views(old(out)@) + number_change(field@, value));
    } else {
        assert(change_views(out@) =~= change_views(old(out)@) + number_change(field@, value));
    }
}

fn no_changes() -> (out: Vec<FieldChange>)
    ensures
        change_views(out@) == Seq::<ChangeView>::empty(),
{
    let out: Vec<FieldChange> = Vec::new();
    assert(change_views(out@) =~= Seq::<ChangeView>::empty());
    out
}

/// Asks for a new sample.
#[derive(Debug)]
pub struct CreateSampleRequest {
    pub name: String,
    pub type_: String,
    pub metadata: Option<String>,
    pub external_id: Option<String>,
    pub container_id: Option<String>,
    pub slot_position: Option<String>,
}

impl CreateSampleRequest {
    /// What the new sample gets beside its name and type.
    pub fn changes(&self) -> (changes: Vec<FieldChange>)
        ensures
            change_views(changes@) == text_change("metadata"@, self.metadata) + text_change(
                "external_id"@,
                self.external_id,
            ) + link_change("container"@, self.container_id) + text_change(
                "slot_position"@,
                self.slot_position,
            ),
    {
        let mut out = no_changes();
        push_text(&mut out, "metadata", &self.metadata);
        push_text(&mut out, "external_id", &self.external_id);
        push_link(&mut out, "container", &self.container_id);
        push_text(&mut out, "slot_position", &self.slot_position);
        out
    }
}

/// Asks for changes to a sample.
#[derive(Debug)]
pub struct UpdateSampleRequest {
    pub name: Option<String>,
    pub metadata: Option<String>,
}

impl UpdateSampleRequest {
    /// What is changed of the sample.
    pub fn changes(&self) -> (changes: Vec<FieldChange>)
        ensures
            change_views(changes@) == text_change("name"@, self.name) + text_change(
                "metadata"@,
                self.metadata,
            ),
    {
        let mut out = no_changes();
        push_text(&mut out, "name", &self.name);
        push_text(&mut out, "metadata", &self.metadata);
        out
    }
}

/// Asks for a new container. The layout is kept as the text it was sent as.
#[derive(Debug)]
pub struct CreateContainerRequest {
    pub name: String,
    pub type_: String,
    pub external_id: Option<String>,
    pub parent_id: Option<String>,
    pub layout_config: Option<String>,
}

impl CreateContainerRequest {
    /// What the new container gets beside its name and type.
    pub fn changes(&self) -> (changes: Vec<FieldChange>)
        ensures
            change_views(changes@) == text_change("external_id"@, self.external_id) + link_change(
                "parent"@,
                self.parent_id,
            ) + text_change("layout_config"@, self.layout_config),
    {
        let mut out = no_changes();
        push_text(&mut out, "external_id", &self.external_id);
        push_link(&mut out, "parent", &self.parent_id);
        push_text(&mut out, "layout_config", &self.layout_config);
        out
    }
}

/// Asks for a new experiment.
#[derive(Debug)]
pub struct CreateExperimentRequest {
    pub name: String,
    pub description: Option<String>,
    pub content: Option<String>,
    pub status: Option<String>,
}

impl CreateExperimentRequest {
    /// What the new experiment gets beside its name.
    pub fn changes(&self) -> (changes: Vec<FieldChange>)
        ensures
            change_views(changes@) == text_change("description"@, self.description) + text_change(
                "content"@,
                self.content,
            ) + text_change("status"@, self.status),
    {
        let mut out = no_changes();
        push_text(&mut out, "description", &self.description);
        push_text(&mut out, "content", &self.content);
        push_text(&mut out, "status", &self.status);
        out
    }
}

/// Asks for changes to an experiment.
#[derive(Debug)]
pub struct UpdateExperimentRequest {
    pub name: Option<String>,
    pub content: Option<String>,
    pub description: Option<String>,
    pub status: Option<String>,
}

impl UpdateExperimentRequest {
    /// What is changed of the experiment.
    pub fn changes(&self) -> (changes: Vec<FieldChange>)
        ensures
            change_views(changes@) == text_change("name"@, self.name) + text_change(
                "content"@,
                self.content,
            ) + text_change("description"@, self.description) + text_change(
                "status"@,
                self.status,
            ),
    {
        let mut out = no_changes();
        push_text(&mut out, "name", &self.name);
        push_text(&mut out, "content", &self.content);
        push_text(&mut out, "description", &self.description);
        push_text(&mut out, "status", &self.status);
        out
    }
}

/// Asks for a new entry in an experiment.
#[derive(Debug)]
pub struct CreateExperimentEntryRequest {
    pub content: String,
    pub author: Option<String>,
    pub attached_asset_id: Option<String>,
}

impl CreateExperimentEntryRequest {
    /// What the new entry gets beside its content.
    pub fn changes(&self) -> (changes: Vec<FieldChange>)
        ensures
            change_views(changes@) == text_change("author"@, self.author) + text_change(
                "attached_asset_id"@,
                self.attached_asset_id,
            ),
    {
        let mut out = no_changes();
        push_text(&mut out, "author", &self.author);
        push_text(&mut out, "attached_asset_id", &self.attached_asset_id);
        out
    }
}

/// Asks for a new mention of a record in an experiment.
#[derive(Debug)]
pub struct CreateExperimentMentionRequest {
    pub entity_type: String,
    pub entity_id: String,
    pub snapshot_data: String,
    pub position: Option<i32>,
}

impl CreateExperimentMentionRequest {
    /// What the new mention gets beside the record it names.
    pub fn changes(&self) -> (changes: Vec<FieldChange>)
        ensures
            change_views(changes@) == number_change("position"@, self.position),
    {
        let mut out = no_changes();
        push_number(&mut out, "position", self.position);
        out
    }
}

/// Asks for a new paper in the library.
#[derive(Debug)]
pub struct CreatePaperRequest {
    pub title: String,
    pub authors: Option<String>,
    pub journal: Option<String>,
    pub year: Option<i32>,
    pub doi: Option<String>,
    pub pmid: Option<String>,
    pub url: Option<String>,
    pub abstract_: Option<String>,
    pub notes: Option<String>,
    pub pdf_path: Option<String>,
    pub tags: Option<String>,
}

impl CreatePaperRequest {
    /// What the new paper gets beside its title.
    pub fn changes(&self) -> (changes: Vec<FieldChange>)
        ensures
            change_views(changes@) == text_change("authors"@, self.authors) + text_change(
                "journal"@,
                self.journal,
            ) + number_change("year"@, self.year) + text_change("doi"@, self.doi) + text_change(
                "pmid"@,
                self.pmid,
            ) + text_change("url"@, self.url) + text_change("abstract"@, self.abstract_)
                + text_change("notes"@, self.notes) + text_change("pdf_path"@, self.pdf_path)
                + text_change("tags"@, self.tags),
    {
        let mut out = no_changes();
        push_text(&mut out, "authors", &self.authors);
        push_text(&mut out, "journal", &self.journal);
        push_number(&mut out, "year", self.year);
        push_text(&mut out, "doi", &self.doi);
        push_text(&mut out, "pmid", &self.pmid);
        push_text(&mut out, "url", &self.url);
        push_text(&mut out, "abstract", &self.abstract_);
        push_text(&mut out, "notes", &self.notes);
        push_text(&mut out, "pdf_path", &self.pdf_path);
        push_text(&mut out, "tags", &self.tags);
        out
    }
}

/// Asks for changes to a paper.
#[derive(Debug)]
pub struct UpdatePaperRequest {
    pub title: Option<String>,
    pub notes: Option<String>,
    pub tags: Option<String>,
}

impl UpdatePaperRequest {
    /// What is changed of the paper.
    pub fn changes(&self) -> (changes: Vec<FieldChange>)
        ensures
            change_views(changes@) == text_change("title"@, self.title) + text_change(
                "notes"@,
                self.notes,
            ) + text_change("tags"@, self.tags),
    {
        let mut out = no_changes();
        push_text(&mut out, "title", &self.title);
        push_text(&mut out, "notes", &self.notes);
        push_text(&mut out, "tags", &self.tags);
        out
    }
}

} // verus!
