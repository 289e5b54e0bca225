//! Templates: named directory trees from which sites are made.
//!
//! A template is described by a small descriptor file in its directory.
//! The synchroniser reads every template directory, renders its previews
//! and stores the resulting record under the template's name, replacing
//! what was stored under that name before.

use vstd::prelude::*;
use crate::assoc::{as_map, distinct_keys, has_key, lemma_entry, lemma_push, lemma_size_of, lemma_update, position_of};
use crate::models::site::SourcePaths;
use crate::paths::{join, joined, opt_text};
use crate::services::preview::{
    builder_args, builder_invocation, AssemblyError, Invocation, Preview, PreviewView, RenderError,
};

verus! {

/// What a template's descriptor file declares.
pub struct TemplateMetadata {
    pub name: String,
    pub author: String,
    pub time: String,
    pub author_link: String,
    pub category: String,
}

/// A template record. Its identity is given to it when it is made and
/// stays with it for as long as a record is stored under its name.
#[derive(Debug)]
pub struct Template {
    pub id: String,
    pub name: String,
    pub author: String,
    pub time: String,
    pub author_link: String,
    pub category: String,
    pub previews: Preview,
    pub dir_path: String,
}

/// What a template record means.
pub struct TemplateView {
    pub id: Seq<char>,
    pub name: Seq<char>,
    pub author: Seq<char>,
    pub time: Seq<char>,
    pub author_link: Seq<char>,
    pub category: Seq<char>,
    pub previews: PreviewView,
    pub dir_path: Seq<char>,
}

impl View for Template {
    type V = TemplateView;

    open spec fn view(&self) -> TemplateView {
        TemplateView {
            id: self.id@,
            name: self.name@,
            author: self.author@,
            time: self.time@,
            author_link: self.author_link@,
            category: self.category@,
            previews: self.previews@,
            dir_path: self.dir_path@,
        }
    }
}

/// Why a template directory was passed over in one synchronisation.
#[derive(PartialEq, Eq, Structural, Clone, Copy, Debug)]
pub enum SyncError {
    /// The directory has no descriptor file.
    NotFound,
    /// The descriptor file could not be parsed.
    MalformedMetadata,
    /// A file or directory could not be read or written.
    IoFailure,
    /// The build or the render program failed or could not be started.
    ProcessFailed,
    /// The build program's output is not valid text.
    EncodingFailure,
}

impl SyncError {
    /// The reason that a failed assembly gives for passing a directory over.
    pub fn from_assembly(error: &AssemblyError) -> (reason: Self)
        ensures
            reason == match *error {
                AssemblyError::ProcessFailed(_) => SyncError::ProcessFailed,
                AssemblyError::EncodingError => SyncError::EncodingFailure,
            },
    {
        match error {
            AssemblyError::ProcessFailed(_) => SyncError::ProcessFailed,
            AssemblyError::EncodingError => SyncError::EncodingFailure,
        }
    }

    /// The reason that a failed render gives for passing a directory over.
    pub fn from_render(error: RenderError) -> (reason: Self)
        ensures
            reason == match error {
                RenderError::IoFailure => SyncError::IoFailure,
                RenderError::ProcessFailed => SyncError::ProcessFailed,
            },
    {
        match error {
            RenderError::IoFailure => SyncError::IoFailure,
            RenderError::ProcessFailed => SyncError::ProcessFailed,
        }
    }
}

/// What is needed to render the previews of a template directory.
pub struct TemplatePreviewPlan {
    /// The directory that holds the previews; it is made if it is absent.
    pub previews_dir: String,
    /// The command line that assembles the template's page.
    pub command: Invocation,
    /// Where the two images are rendered.
    pub targets: Preview,
}

/// The text that `serde_json` finds under `key` at the top level of the
/// JSON document `document`: absent if the bytes are not a JSON document,
/// if the document is not an object, if the object has no such key, or if
/// what it holds there is not a string.
pub uninterp spec fn json_text_field(document: Seq<u8>, key: Seq<char>) -> Option<Seq<char>>;

/// Parses `document` with `serde_json::from_slice` into a `Value`, looks
/// `key` up with `Value::get` and reads the entry with `Value::as_str`.
/// The result is named, not described: it is whatever `serde_json` makes
/// of the bytes and the key.
#[verifier::external_body]
fn text_field(document: &Vec<u8>, key: &str) -> (text: Option<String>)
    ensures
        opt_text(text) == json_text_field(document@, key@),
{
    match serde_json::from_slice::<serde_json::Value>(document.as_slice()) {
        Ok(value) => value.get(key).and_then(|entry| entry.as_str()).map(|text| text.to_owned()),
        Err(_) => None,
    }
}

/// What was found in a descriptor file under each of the keys that a
/// descriptor may declare.
pub struct DescriptorFields {
    pub name: Option<String>,
    pub author: Option<String>,
    pub category: Option<String>,
    pub author_link: Option<String>,
    pub time: Option<String>,
}

/// What the fields of a descriptor mean.
pub struct DescriptorFieldsView {
    pub name: Option<Seq<char>>,
    pub author: Option<Seq<char>>,
    pub category: Option<Seq<char>>,
    pub author_link: Option<Seq<char>>,
    pub time: Option<Seq<char>>,
}

impl View for DescriptorFields {
    type V = DescriptorFieldsView;

    open spec fn view(&self) -> DescriptorFieldsView {
        DescriptorFieldsView {
            name: opt_text(self.name),
            author: opt_text(self.author),
            category: opt_text(self.category),
            author_link: opt_text(self.author_link),
            time: opt_text(self.time),
        }
    }
}

/// What a template's descriptor declares, as contracts speak of it.
pub struct TemplateMetadataView {
    pub name: Seq<char>,
    pub author: Seq<char>,
    pub time: Seq<char>,
    pub author_link: Seq<char>,
    pub category: Seq<char>,
}

impl View for TemplateMetadata {
    type V = TemplateMetadataView;

    open spec fn view(&self) -> TemplateMetadataView {
        TemplateMetadataView {
            name: self.name@,
            author: self.author@,
            time: self.time@,
            author_link: self.author_link@,
            category: self.category@,
        }
    }
}

/// Whether the fields make a descriptor: the name, the author, the
/// category and the author's link must all be there.
pub open spec fn is_complete(fields: DescriptorFieldsView) -> bool {
    fields.name is Some && fields.author is Some && fields.category is Some
        && fields.author_link is Some
}

/// The descriptor that complete fields make. A descriptor that gives no
/// time has the empty text for it.
pub open spec fn declared_by(fields: DescriptorFieldsView) -> TemplateMetadataView {
    TemplateMetadataView {
        name: fields.name->Some_0,
        author: fields.author->Some_0,
        time: match fields.time {
            Some(time) => time,
            None => Seq::empty(),
        },
        author_link: fields.author_link->Some_0,
        category: fields.category->Some_0,
    }
}

/// The fields that `serde_json` finds in the descriptor file `document`.
pub open spec fn fields_of(document: Seq<u8>) -> DescriptorFieldsView {
    DescriptorFieldsView {
        name: json_text_field(document, "name"@),
        author: json_text_field(document, "author"@),
        category: json_text_field(document, "category"@),
        author_link: json_text_field(document, "author_link"@),
        time: json_text_field(document, "time"@),
    }
}

/// The meaning of the result of reading a descriptor.
pub open spec fn descriptor_view(read: Result<TemplateMetadata, SyncError>) -> Result<
    TemplateMetadataView,
    SyncError,
> {
    match read {
        Ok(declared) => Ok(declared@),
        Err(reason) => Err(reason),
    }
}

/// The descriptor that `fields` make, or `MalformedMetadata` if one of the
/// four fields that every descriptor must have is missing.
pub fn descriptor_from(fields: DescriptorFields) -> (read: Result<TemplateMetadata, SyncError>)
    ensures
        descriptor_view(read) == if is_complete(fields@) {
            Ok::<TemplateMetadataView, SyncError>(declared_by(fields@))
        } else {
            Err::<TemplateMetadataView, SyncError>(SyncError::MalformedMetadata)
        },
{
    match (fields.name, fields.author, fields.category, fields.author_link) {
        (Some(name), Some(author), Some(category), Some(author_link)) => Ok(
            TemplateMetadata {
                name,
                author,
                time: match fields.time {
                    Some(time) => time,
                    None => String::new(),
                },
                author_link,
                category,
            },
        ),
        _ => Err(SyncError::MalformedMetadata),
    }
}

/// Reads the descriptor file whose contents are `document`. The file must
/// be a JSON object that holds a string under each of `name`, `author`,
/// `category` and `author_link`; it may hold one under `time`. Anything
/// else is malformed.
pub fn parse_descriptor(document: &Vec<u8>) -> (read: Result<TemplateMetadata, SyncError>)
    ensures
        descriptor_view(read) == if is_complete(fields_of(document@)) {
            Ok::<TemplateMetadataView, SyncError>(declared_by(fields_of(document@)))
        } else {
            Err::<TemplateMetadataView, SyncError>(SyncError::MalformedMetadata)
        },
{
    descriptor_from(
        DescriptorFields {
            name: text_field(document, "name"),
            author: text_field(document, "author"),
            category: text_field(document, "category"),
            author_link: text_field(document, "author_link"),
            time: text_field(document, "time"),
        },
    )
}

/// The descriptor file of the template directory `dir`.
pub fn descriptor_path(dir: &str) -> (path: String)
    ensures
        path@ == joined(dir@, "metadata.json"@),
{
    join(dir, "metadata.json")
}

impl Template {
    /// The record of the template that `descriptor` declares in the
    /// directory `dir`, with the previews rendered for it. `id` is the
    /// identity that the record takes if it is new to the store.
    pub fn from_metadata(descriptor: TemplateMetadata, dir: &str, previews: Preview, id: String) -> (template:
        Self)
        ensures
            template@ == (TemplateView {
                id: id@,
                name: descriptor.name@,
                author: descriptor.author@,
                time: descriptor.time@,
                author_link: descriptor.author_link@,
                category: descriptor.category@,
                previews: previews@,
                dir_path: dir@,
            }),
    {
        Template {
            id,
            name: descriptor.name,
            author: descriptor.author,
            time: descriptor.time,
            author_link: descriptor.author_link,
            category: descriptor.category,
            previews,
            dir_path: dir.to_owned(),
        }
    }

    /// A copy of the record.
    pub fn duplicate(&self) -> (copy: Self)
        ensures
            copy@ == self@,
    {
        Template {
            id: self.id.clone(),
            name: self.name.clone(),
            author: self.author.clone(),
            time: self.time.clone(),
            author_link: self.author_link.clone(),
            category: self.category.clone(),
            previews: self.previews.duplicate(),
            dir_path: self.dir_path.clone(),
        }
    }

    /// The three source files of the template directory `dir`.
    pub fn source_paths(dir: &str) -> (sources: SourcePaths)
        ensures
            sources.html@ == joined(dir@, "index.html"@),
            sources.css@ == joined(dir@, "styles/styles.css"@),
            sources.js@ == joined(dir@, "js/script.js"@),
    {
        SourcePaths {
            html: join(dir, "index.html"),
            css: join(dir, "styles/styles.css"),
            js: join(dir, "js/script.js"),
        }
    }

    /// Plans the previews of the template directory `dir`: the page is
    /// assembled from the template's sources with the default bindings, and
    /// the images go to `mobile.png` and `desktop.png` in the template's
    /// own `previews` directory.
    pub fn build_preview(dir: &str) -> (plan: TemplatePreviewPlan)
        ensures
            plan.previews_dir@ == joined(dir@, "previews"@),
            plan.command@.program == "bun"@,
            plan.command@.args == builder_args(
                joined(dir@, "index.html"@),
                joined(dir@, "styles/styles.css"@),
                joined(dir@, "js/script.js"@),
                None,
            ),
            plan.targets@ == (PreviewView {
                mobile: joined(joined(dir@, "previews"@), "mobile.png"@),
                desktop: joined(joined(dir@, "previews"@), "desktop.png"@),
            }),
    {
        let sources = Template::source_paths(dir);
        let previews_dir = join(dir, "previews");
        let targets = Preview {
            mobile: join(previews_dir.as_str(), "mobile.png"),
            desktop: join(previews_dir.as_str(), "desktop.png"),
        };
        let command = builder_invocation(
            sources.html.as_str(),
            sources.css.as_str(),
            sources.js.as_str(),
            None,
        );
        TemplatePreviewPlan { previews_dir, command, targets }
    }

    /// The preview image to serve: the mobile one or the desktop one.
    pub fn get_preview(&self, is_mobile: bool) -> (path: String)
        ensures
            path@ == if is_mobile {
                self@.previews.mobile
            } else {
                self@.previews.desktop
            },
    {
        if is_mobile {
            self.previews.mobile.clone()
        } else {
            self.previews.desktop.clone()
        }
    }
}

/// The store after `candidate` was put under its name. A record already
/// stored under that name is overwritten in every field but its identity,
/// which is stable; a new record is stored with the identity it was made
/// with.
pub open spec fn upserted(m: Map<Seq<char>, TemplateView>, candidate: TemplateView) -> Map<
    Seq<char>,
    TemplateView,
> {
    m.insert(
        candidate.name,
        TemplateView {
            id: if m.dom().contains(candidate.name) {
                m[candidate.name].id
            } else {
                candidate.id
            },
            ..candidate
        },
    )
}

/// The store after every candidate of `candidates` was put under its name,
/// in order.
pub open spec fn upserted_all(m: Map<Seq<char>, TemplateView>, candidates: Seq<TemplateView>) -> Map<
    Seq<char>,
    TemplateView,
>
    decreases candidates.len(),
{
    if candidates.len() == 0 {
        m
    } else {
        upserted(upserted_all(m, candidates.drop_last()), candidates.last())
    }
}

/// The candidates among the outcomes of scanning the template directories:
/// the directories that were read and rendered without failure, in order.
pub open spec fn candidates_of(scans: Seq<Result<Template, SyncError>>) -> Seq<TemplateView>
    decreases scans.len(),
{
    if scans.len() == 0 {
        Seq::empty()
    } else {
        let before = candidates_of(scans.drop_last());
        match scans.last() {
            Ok(template) => before.push(template@),
            Err(_) => before,
        }
    }
}

/// The failures among the outcomes of scanning the template directories,
/// in order.
pub open spec fn failures_of(scans: Seq<Result<Template, SyncError>>) -> Seq<SyncError>
    decreases scans.len(),
{
    if scans.len() == 0 {
        Seq::empty()
    } else {
        let before = failures_of(scans.drop_last());
        match scans.last() {
            Ok(_) => before,
            Err(reason) => before.push(reason),
        }
    }
}

/// Two records that agree in everything but, possibly, their identity.
pub open spec fn same_content(a: TemplateView, b: TemplateView) -> bool {
    a == (TemplateView { id: a.id, ..b })
}

/// The stored template records, one per name.
pub struct TemplateStore {
    records: Vec<Template>,
}

impl View for TemplateStore {
    type V = Map<Seq<char>, TemplateView>;

    closed spec fn view(&self) -> Map<Seq<char>, TemplateView> {
        as_map(self.pairs())
    }
}

impl TemplateStore {
    /// The stored records as pairs of name and meaning, in storage order.
    closed spec fn pairs(&self) -> Seq<(Seq<char>, TemplateView)> {
        Seq::new(self.records.len() as nat, |i: int| (self.records[i].name@, self.records[i]@))
    }

    /// No name is stored twice.
    pub closed spec fn wf(&self) -> bool {
        distinct_keys(self.pairs())
    }

    /// An empty store.
    pub fn new() -> (store: Self)
        ensures
            store.wf(),
            store@ == Map::<Seq<char>, TemplateView>::empty(),
    {
        let store = TemplateStore { records: Vec::new() };
        assert(store@ =~= Map::<Seq<char>, TemplateView>::empty()) by {
            assert forall|k: Seq<char>| !has_key(store.pairs(), k) by {}
        }
        store
    }

    /// The position at which `name` is stored, if it is stored at all.
    fn position(&self, name: &String) -> (found: Option<usize>)
        requires
            self.wf(),
        ensures
            match found {
                Some(i) => i < self.records.len() && self.records[i as int].name@ == name@,
                None => !has_key(self.pairs(), name@),
            },
    {
        let mut i: usize = 0;
        while i < self.records.len()
            invariant
                i <= self.records.len(),
                forall|j: int| 0 <= j < i ==> (#[trigger] self.pairs()[j]).0 != name@,
            decreases self.records.len() - i,
        {
            if self.records[i].name == *name {
                return Some(i);
            }
            i += 1;
        }
        None
    }

    /// The number of records in the store.
    pub fn len(&self) -> (n: usize)
        requires
            self.wf(),
        ensures
            self@.dom().finite(),
            n == self@.dom().len(),
    {
        proof {
            lemma_size_of(self.pairs());
        }
        self.records.len()
    }

    /// The record stored under `name`, if there is one.
    pub fn get(&self, name: &str) -> (found: Option<&Template>)
        requires
            self.wf(),
        ensures
            match found {
                Some(template) => self@.dom().contains(name@) && template@ == self@[name@],
                None => !self@.dom().contains(name@),
            },
    {
        let key = name.to_owned();
        match self.position(&key) {
            Some(i) => {
                proof {
                    lemma_entry(self.pairs(), i as int);
                }
                Some(&self.records[i])
            },
            None => None,
        }
    }

    /// A record with the identity `id`, if the store holds one.
    pub fn find_by_id(&self, id: &str) -> (found: Option<&Template>)
        requires
            self.wf(),
        ensures
            match found {
                Some(template) => template@.id == id@ && self@.dom().contains(template@.name)
                    && self@[template@.name] == template@,
                None => forall|name: Seq<char>| #[trigger]
                    self@.dom().contains(name) ==> self@[name].id != id@,
            },
    {
        let key = id.to_owned();
        let mut i: usize = 0;
        while i < self.records.len()
            invariant
                i <= self.records.len(),
                self.wf(),
                key@ == id@,
                forall|j: int| 0 <= j < i ==> (#[trigger] self.pairs()[j]).1.id != id@,
            decreases self.records.len() - i,
        {
            if self.records[i].id == key {
                proof {
                    lemma_entry(self.pairs(), i as int);
                }
                return Some(&self.records[i]);
            }
            i += 1;
        }
        proof {
            assert forall|name: Seq<char>| #[trigger] self@.dom().contains(name) implies self@[name].id
                != id@ by {
                let p = position_of(self.pairs(), name);
                assert(self.pairs()[p].1.id != id@);
            }
        }
        None
    }

    /// Puts `candidate` under its name: inserted if the name is new,
    /// otherwise overwriting every field of the stored record but its
    /// identity.
    pub fn upsert(&mut self, candidate: Template)
        requires
            old(self).wf(),
        ensures
            final(self).wf(),
            final(self)@ == upserted(old(self)@, candidate@),
    {
        let ghost before = self.pairs();
        match self.position(&candidate.name) {
            Some(i) => {
                let id = self.records[i].id.clone();
                let record = Template {
                    id,
                    name: candidate.name,
                    author: candidate.author,
                    time: candidate.time,
                    author_link: candidate.author_link,
                    category: candidate.category,
                    previews: candidate.previews,
                    dir_path: candidate.dir_path,
                };
                proof {
                    lemma_entry(before, i as int);
                    lemma_update(before, i as int, record@);
                }
                self.records.set(i, record);
                assert(self.pairs() =~= before.update(i as int, (before[i as int].0, record@)));
            },
            None => {
                proof {
                    lemma_push(before, candidate.name@, candidate@);
                }
                self.records.push(candidate);
                assert(self.pairs() =~= before.push((candidate.name@, candidate@)));
            },
        }
    }

    /// One synchronisation: every directory that was scanned without
    /// failure is put into the store under its template's name, in order;
    /// a directory whose scan failed is passed over and changes nothing.
    /// The failures are returned, in order, to be logged.
    pub fn sync_tick(&mut self, scans: &Vec<Result<Template, SyncError>>) -> (failures: Vec<
        SyncError,
    >)
        requires
            old(self).wf(),
        ensures
            final(self).wf(),
            final(self)@ == upserted_all(old(self)@, candidates_of(scans@)),
            failures@ == failures_of(scans@),
    {
        let mut failures: Vec<SyncError> = Vec::new();
        let mut i: usize = 0;
        assert(scans@.take(0) =~= Seq::empty());
        while i < scans.len()
            invariant
                i <= scans.len(),
                self.wf(),
                self@ == upserted_all(old(self)@, candidates_of(scans@.take(i as int))),
                failures@ == failures_of(scans@.take(i as int)),
            decreases scans.len() - i,
        {
            proof {
                assert(scans@.take(i + 1).drop_last() =~= scans@.take(i as int));
                let done = candidates_of(scans@.take(i as int));
                if scans@[i as int] is Ok {
                    assert(candidates_of(scans@.take(i + 1)).drop_last() =~= done);
                }
            }
            match &scans[i] {
                Ok(template) => {
                    self.upsert(template.duplicate());
                },
                Err(reason) => {
                    failures.push(*reason);
                },
            }
            i += 1;
        }
        proof {
            assert(scans@.take(scans.len() as int) =~= scans@);
        }
        failures
    }
}

/// What one template directory contributes to a synchronisation: the
/// record made from its descriptor and its freshly rendered previews, or
/// the first failure met on the way, the descriptor's before the render's.
/// `id` is the identity that the record takes if it is new to the store.
pub open spec fn scanned(
    dir: Seq<char>,
    descriptor: Result<TemplateMetadata, SyncError>,
    rendered: Result<Preview, SyncError>,
    id: Seq<char>,
) -> Result<TemplateView, SyncError> {
    match (descriptor, rendered) {
        (Err(reason), _) => Err(reason),
        (Ok(_), Err(reason)) => Err(reason),
        (Ok(declared), Ok(previews)) => Ok(
            TemplateView {
                id,
                name: declared.name@,
                author: declared.author@,
                time: declared.time@,
                author_link: declared.author_link@,
                category: declared.category@,
                previews: previews@,
                dir_path: dir,
            },
        ),
    }
}

/// Brings the store up to date with the template directory `dir`, given
/// what reading its descriptor and rendering its previews came to. If both
/// went well, the template's record is put into the store under its name,
/// with the identity `id` if the name is new and with the stored identity
/// otherwise. If either failed, the store is left as it was and the
/// failure is returned, so that it touches this directory only.
pub fn update_template_in_db(
    store: &mut TemplateStore,
    dir: &str,
    descriptor: Result<TemplateMetadata, SyncError>,
    rendered: Result<Preview, SyncError>,
    id: String,
) -> (done: Result<(), SyncError>)
    requires
        old(store).wf(),
    ensures
        final(store).wf(),
        match scanned(dir@, descriptor, rendered, id@) {
            Ok(candidate) => done is Ok && final(store)@ == upserted(old(store)@, candidate),
            Err(reason) => done == Err::<(), SyncError>(reason) && final(store)@ == old(store)@,
        },
{
    match descriptor {
        Err(reason) => Err(reason),
        Ok(declared) => match rendered {
            Err(reason) => Err(reason),
            Ok(previews) => {
                store.upsert(Template::from_metadata(declared, dir, previews, id));
                Ok(())
            },
        },
    }
}

/// Names that are stored stay stored.
pub proof fn names_stay(m: Map<Seq<char>, TemplateView>, cs: Seq<TemplateView>, name: Seq<char>)
    requires
        m.dom().contains(name),
    ensures
        upserted_all(m, cs).dom().contains(name),
    decreases cs.len(),
{
    if cs.len() > 0 {
        names_stay(m, cs.drop_last(), name);
    }
}

/// The name of every candidate is stored afterwards.
pub proof fn candidate_names_are_stored(
    m: Map<Seq<char>, TemplateView>,
    cs: Seq<TemplateView>,
    i: int,
)
    requires
        0 <= i < cs.len(),
    ensures
        upserted_all(m, cs).dom().contains(cs[i].name),
    decreases cs.len(),
{
    if i < cs.len() - 1 {
        candidate_names_are_stored(m, cs.drop_last(), i);
    }
}

/// Putting two candidates of different names can be done in either order.
proof fn lemma_upserts_commute(m: Map<Seq<char>, TemplateView>, c: TemplateView, d: TemplateView)
    requires
        c.name != d.name,
    ensures
        upserted(upserted(m, c), d) == upserted(upserted(m, d), c),
{
    assert(upserted(upserted(m, c), d) =~= upserted(upserted(m, d), c));
}

/// A candidate that is put again at the end need not have been put at the
/// start, as long as its name was stored before or does not occur in
/// between.
proof fn lemma_early_upsert_is_absorbed(
    m: Map<Seq<char>, TemplateView>,
    c: TemplateView,
    s: Seq<TemplateView>,
)
    requires
        m.dom().contains(c.name) || forall|i: int| 0 <= i < s.len() ==> (#[trigger] s[i]).name
            != c.name,
    ensures
        upserted(upserted_all(upserted(m, c), s), c) == upserted(upserted_all(m, s), c),
    decreases s.len(),
{
    if s.len() == 0 {
        assert(upserted(upserted(m, c), c) =~= upserted(m, c));
    } else {
        let rest = s.drop_last();
        let d = s.last();
        let left = upserted_all(upserted(m, c), rest);
        let right = upserted_all(m, rest);
        assert forall|i: int| 0 <= i < rest.len() implies (#[trigger] rest[i]).name != c.name
            || m.dom().contains(c.name) by {
            assert(rest[i] == s[i]);
        }
        lemma_early_upsert_is_absorbed(m, c, rest);
        assert(upserted(left, c) == upserted(right, c));
        if d.name != c.name {
            lemma_upserts_commute(left, d, c);
            lemma_upserts_commute(right, d, c);
        } else {
            assert(s[s.len() - 1].name == c.name);
            assert(m.dom().contains(c.name));
            names_stay(upserted(m, c), rest, c.name);
            names_stay(m, rest, c.name);
            assert(upserted(left, c)[c.name] == upserted(right, c)[c.name]);
            assert(left[c.name].id == right[c.name].id);
            assert forall|k: Seq<char>| k != c.name implies (left.dom().contains(k)
                == right.dom().contains(k)) && (left.dom().contains(k) ==> left[k] == right[k]) by {
                assert(upserted(left, c).dom().contains(k) == left.dom().contains(k));
                assert(upserted(right, c).dom().contains(k) == right.dom().contains(k));
                if left.dom().contains(k) {
                    assert(upserted(left, c)[k] == left[k]);
                    assert(upserted(right, c)[k] == right[k]);
                }
            }
            assert(upserted(upserted(left, d), c) =~= upserted(upserted(right, d), c));
        }
    }
}

/// Reconciliation is idempotent: putting the same candidates a second
/// time leaves the store exactly as the first time left it. In particular
/// no record is added, so no name comes to be stored twice.
pub proof fn upserting_twice_changes_nothing(m: Map<Seq<char>, TemplateView>, cs: Seq<TemplateView>)
    ensures
        upserted_all(upserted_all(m, cs), cs) == upserted_all(m, cs),
    decreases cs.len(),
{
    if cs.len() > 0 {
        let rest = cs.drop_last();
        let c = cs.last();
        let once = upserted_all(m, rest);
        upserting_twice_changes_nothing(m, rest);
        if !once.dom().contains(c.name) {
            assert forall|i: int| 0 <= i < rest.len() implies (#[trigger] rest[i]).name
                != c.name by {
                candidate_names_are_stored(m, rest, i);
            }
        }
        lemma_early_upsert_is_absorbed(once, c, rest);
    }
}

/// Where every name is stored already, the identities that candidates come
/// with do not matter: two sequences of candidates that agree in
/// everything else leave the same store.
proof fn lemma_identities_of_stored_names_are_kept(
    m: Map<Seq<char>, TemplateView>,
    a: Seq<TemplateView>,
    b: Seq<TemplateView>,
)
    requires
        a.len() == b.len(),
        forall|i: int| 0 <= i < a.len() ==> same_content(#[trigger] a[i], b[i]),
        forall|i: int| 0 <= i < a.len() ==> m.dom().contains((#[trigger] a[i]).name),
    ensures
        upserted_all(m, a) == upserted_all(m, b),
    decreases a.len(),
{
    if a.len() > 0 {
        let shorter_a = a.drop_last();
        let shorter_b = b.drop_last();
        assert forall|i: int| 0 <= i < shorter_a.len() implies same_content(
            #[trigger] shorter_a[i],
            shorter_b[i],
        ) by {
            assert(same_content(a[i], b[i]));
        }
        assert forall|i: int| 0 <= i < shorter_a.len() implies m.dom().contains(
            (#[trigger] shorter_a[i]).name,
        ) by {
            assert(m.dom().contains(a[i].name));
        }
        lemma_identities_of_stored_names_are_kept(m, shorter_a, shorter_b);
        let last = a.len() - 1;
        assert(same_content(a[last], b[last]));
        assert(m.dom().contains(a[last].name));
        names_stay(m, shorter_a, a[last].name);
    }
}

/// Reconciliation over an unchanged template library changes nothing. A
/// second synchronisation finds the same templates as the first and makes
/// its candidates with fresh identities of their own; since every name is
/// stored by then, the stored identities stay and the store is left
/// exactly as the first synchronisation left it.
pub proof fn resync_changes_nothing(
    m: Map<Seq<char>, TemplateView>,
    first: Seq<TemplateView>,
    second: Seq<TemplateView>,
)
    requires
        first.len() == second.len(),
        forall|i: int| 0 <= i < first.len() ==> same_content(#[trigger] second[i], first[i]),
    ensures
        upserted_all(upserted_all(m, first), second) == upserted_all(m, first),
{
    let once = upserted_all(m, first);
    assert forall|i: int| 0 <= i < second.len() implies once.dom().contains(
        (#[trigger] second[i]).name,
    ) by {
        assert(same_content(second[i], first[i]));
        candidate_names_are_stored(m, first, i);
    }
    lemma_identities_of_stored_names_are_kept(once, second, first);
    upserting_twice_changes_nothing(m, first);
}

/// Running the synchroniser twice over the same outcomes of scanning
/// leaves the store as one run left it.
pub proof fn tick_is_idempotent(
    m: Map<Seq<char>, TemplateView>,
    scans: Seq<Result<Template, SyncError>>,
)
    ensures
        upserted_all(upserted_all(m, candidates_of(scans)), candidates_of(scans)) == upserted_all(
            m,
            candidates_of(scans),
        ),
{
    upserting_twice_changes_nothing(m, candidates_of(scans));
}

/// A candidate whose name no later candidate carries is what the store
/// holds under that name afterwards, identity aside.
pub proof fn last_candidate_is_stored(m: Map<Seq<char>, TemplateView>, cs: Seq<TemplateView>, i: int)
    requires
        0 <= i < cs.len(),
        forall|j: int| i < j < cs.len() ==> (#[trigger] cs[j]).name != cs[i].name,
    ensures
        upserted_all(m, cs).dom().contains(cs[i].name),
        same_content(upserted_all(m, cs)[cs[i].name], cs[i]),
    decreases cs.len(),
{
    if i < cs.len() - 1 {
        let rest = cs.drop_last();
        assert forall|j: int| i < j < rest.len() implies (#[trigger] rest[j]).name
            != rest[i].name by {
            assert(rest[j] == cs[j]);
        }
        last_candidate_is_stored(m, rest, i);
        assert(cs[cs.len() - 1].name != cs[i].name);
    }
}

/// Failures are isolated. Whatever becomes of the other directories, a
/// directory that was scanned without failure has its record in the store
/// after the synchronisation, under its template's name, provided that no
/// directory scanned after it declares the same name.
pub proof fn failures_are_isolated(
    m: Map<Seq<char>, TemplateView>,
    scans: Seq<Result<Template, SyncError>>,
    i: int,
)
    requires
        0 <= i < scans.len(),
        scans[i] is Ok,
        forall|j: int|
            i < j < scans.len() && (#[trigger] scans[j]) is Ok ==> scans[j]->Ok_0@.name
                != scans[i]->Ok_0@.name,
    ensures
        upserted_all(m, candidates_of(scans)).dom().contains(scans[i]->Ok_0@.name),
        same_content(
            upserted_all(m, candidates_of(scans))[scans[i]->Ok_0@.name],
            scans[i]->Ok_0@,
        ),
    decreases scans.len(),
{
    let rest = scans.drop_last();
    let name = scans[i]->Ok_0@.name;
    if i == scans.len() - 1 {
        assert(candidates_of(scans).drop_last() =~= candidates_of(rest));
    } else {
        assert forall|j: int| i < j < rest.len() && (#[trigger] rest[j]) is Ok implies rest[j]->Ok_0@.name
            != rest[i]->Ok_0@.name by {
            assert(rest[j] == scans[j]);
        }
        failures_are_isolated(m, rest, i);
        match scans.last() {
            Ok(template) => {
                assert(scans[scans.len() - 1] is Ok);
                assert(template@.name != name);
                assert(candidates_of(scans).drop_last() =~= candidates_of(rest));
            },
            Err(_) => {},
        }
    }
}

} // verus!
