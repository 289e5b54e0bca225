//! Sites: a user's own copy of a template, with its content bindings.
//!
//! A site lives in a directory of its own, named after the site's identity
//! and never shared. The functions here lay out that directory, build the
//! record of a new site, and decide what the editing operations do once the
//! outside world has answered.

use vstd::prelude::*;
use vstd::string::*;
use crate::paths::{duplicate_opt, join, join2, joined, joined2, opt_text, texts};
use crate::services::cleanup::{schedule_delete, Deletion};
use crate::services::preview::{builder_args, builder_invocation, Invocation, Preview, PreviewView};
use crate::services::tempfiles::{added, is_token_text, TempFileService};

verus! {

/// How long the scratch directory of an assembly is kept, in seconds.
pub const ASSEMBLY_CLEANUP_DELAY_SECS: u64 = 60;

/// One content binding: what to put where in the page.
#[derive(Debug)]
pub struct Data {
    pub selector: Option<String>,
    pub value: Option<String>,
    pub link: Option<String>,
}

/// What a site shows of itself in listings.
#[derive(Debug)]
pub struct MetaData {
    pub name: String,
    pub category: Option<String>,
    pub time: String,
}

/// What a site's metadata means.
pub struct MetaDataView {
    pub name: Seq<char>,
    pub category: Option<Seq<char>>,
    pub time: Seq<char>,
}

impl View for MetaData {
    type V = MetaDataView;

    open spec fn view(&self) -> MetaDataView {
        MetaDataView { name: self.name@, category: opt_text(self.category), time: self.time@ }
    }
}

/// The RFC 3339 text of the instant `seconds` seconds and `nanos`
/// nanoseconds after the Unix epoch, as `chrono` writes it; absent where
/// `chrono` has no such instant.
pub uninterp spec fn rfc3339_text(seconds: i64, nanos: u32) -> Option<Seq<char>>;

/// Makes an instant with `chrono::DateTime::from_timestamp` and renders it
/// with `DateTime::to_rfc3339`. The result is named, not described: it is
/// whatever `chrono` makes of the two numbers, and nothing where `chrono`
/// refuses them.
#[verifier::external_body]
fn rfc3339(seconds: i64, nanos: u32) -> (text: Option<String>)
    ensures
        opt_text(text) == rfc3339_text(seconds, nanos),
{
    match chrono::DateTime::from_timestamp(seconds, nanos) {
        Some(instant) => Some(instant.to_rfc3339()),
        None => None,
    }
}

/// The timestamp that a reading of the clock gives. A clock set before
/// the epoch, which gives no reading, counts as the epoch itself. A
/// reading that `chrono` cannot hold gives no timestamp.
pub open spec fn timestamp_text(reading: Option<(u64, u32)>) -> Option<Seq<char>> {
    match reading {
        Some((seconds, nanos)) => if seconds <= i64::MAX {
            rfc3339_text(seconds as i64, nanos)
        } else {
            None
        },
        None => rfc3339_text(0, 0),
    }
}

/// The timestamp that `reading` gives.
pub fn timestamp_at(reading: Option<(u64, u32)>) -> (time: Option<String>)
    ensures
        opt_text(time) == timestamp_text(reading),
{
    match reading {
        Some((seconds, nanos)) => {
            if seconds <= 0x7fff_ffff_ffff_ffff {
                rfc3339(seconds as i64, nanos)
            } else {
                None
            }
        },
        None => rfc3339(0, 0),
    }
}

/// The timestamp of the present moment, where the clock's reading gives
/// one.
pub fn timestamp_now() -> (time: Option<String>)
    ensures
        exists|reading: Option<(u64, u32)>| opt_text(time) == #[trigger] timestamp_text(reading),
{
    let reading = crate::services::tempfiles::unix_clock();
    timestamp_at(reading)
}

/// The metadata under `name` and `category` with the timestamp `time`,
/// and none where there is no timestamp.
pub open spec fn stamped_with(
    name: Seq<char>,
    category: Option<Seq<char>>,
    time: Option<Seq<char>>,
) -> Option<MetaDataView> {
    match time {
        Some(text) => Some(MetaDataView { name, category, time: text }),
        None => None,
    }
}

/// The meaning of metadata that may be absent.
pub open spec fn metadata_view(metadata: Option<MetaData>) -> Option<MetaDataView> {
    match metadata {
        Some(m) => Some(m@),
        None => None,
    }
}

impl MetaData {
    /// Metadata under `name` and `category`, stamped with the present
    /// moment; none if the clock's reading gives no timestamp.
    pub fn new(name: &str, category: Option<String>) -> (metadata: Option<Self>)
        ensures
            exists|reading: Option<(u64, u32)>|
                metadata_view(metadata) == stamped_with(
                    name@,
                    opt_text(category),
                    #[trigger] timestamp_text(reading),
                ),
    {
        match timestamp_now() {
            Some(time) => Some(MetaData::stamped(name, category, time)),
            None => None,
        }
    }

    /// Metadata under `name` and `category`, stamped with `time`.
    pub fn stamped(name: &str, category: Option<String>, time: String) -> (metadata: Self)
        ensures
            metadata@ == (MetaDataView {
                name: name@,
                category: opt_text(category),
                time: time@,
            }),
    {
        MetaData { name: name.to_owned(), category, time }
    }
}

/// A site record.
#[derive(Debug)]
pub struct Site {
    pub id: Option<String>,
    pub path: String,
    pub data: Vec<Data>,
    pub metadata: MetaData,
    pub user: String,
}

/// The three source files of a site or template.
pub struct SourcePaths {
    pub html: String,
    pub css: String,
    pub js: String,
}

/// How the store answered a request to update one record.
pub enum UpdateOutcome {
    /// The store answered, having changed this many records.
    Modified(u64),
    /// The store failed.
    Failed,
}

/// One entry of a directory listing: its name, where the name is text, and
/// whether it is a regular file.
pub struct Listed {
    pub name: Option<String>,
    pub is_file: bool,
}

/// What is needed to assemble a site's page.
pub struct AssemblyPlan {
    /// Where the site's bindings are written before the build.
    pub data_path: String,
    /// The command line of the build.
    pub command: Invocation,
    /// The removal of the scratch directory once the build is over.
    pub cleanup: Deletion,
}

/// Where a site's own previews go.
pub struct PreviewJob {
    /// The site's preview directory.
    pub previews_dir: String,
    /// The two images inside it.
    pub targets: Preview,
}

/// A site's sources as the editor sees them.
pub struct SiteSource {
    pub html: String,
    pub js: String,
    pub css: String,
    pub assets: Vec<String>,
}

/// The scratch files of a live preview in the editor.
pub struct EditorInputs {
    pub html: String,
    pub css: String,
    pub js: String,
    pub data: String,
}

/// The directory of the site `site_id` below the home directory `home`.
pub open spec fn site_dir_of(home: Seq<char>, site_id: Seq<char>) -> Seq<char> {
    joined(joined2(home, ".zitefy"@, "sites"@), site_id)
}

/// The directory of the site `site_id`: one per site, derived from the
/// identity alone.
pub fn site_dir(home: &str, site_id: &str) -> (dir: String)
    ensures
        dir@ == site_dir_of(home@, site_id@),
{
    let sites = join2(home, ".zitefy", "sites");
    join(sites.as_str(), site_id)
}

/// Where the uploaded file `filename` of the site `site_id` is kept.
pub fn resource_path(home: &str, site_id: &str, filename: &str) -> (path: String)
    ensures
        path@ == joined2(site_dir_of(home@, site_id@), "resources"@, filename@),
{
    let dir = site_dir(home, site_id);
    join2(dir.as_str(), "resources", filename)
}

/// The contents of the files of a directory, each followed by a line
/// break, in listing order.
pub open spec fn concatenated(contents: Seq<Seq<char>>) -> Seq<char>
    decreases contents.len(),
{
    if contents.len() == 0 {
        Seq::empty()
    } else {
        concatenated(contents.drop_last()) + contents.last() + "\n"@
    }
}

/// Puts the contents of the files of one directory together: each file's
/// text followed by a line break, in the order given.
pub fn concat_sources(contents: &Vec<String>) -> (all: String)
    ensures
        all@ == concatenated(texts(contents@)),
{
    let mut all = String::new();
    let mut i: usize = 0;
    while i < contents.len()
        invariant
            i <= contents.len(),
            all@ == concatenated(texts(contents@).take(i as int)),
        decreases contents.len() - i,
    {
        proof {
            let next = texts(contents@).take(i + 1);
            assert(next.drop_last() =~= texts(contents@).take(i as int));
            assert(next.last() == contents@[i as int]@);
        }
        all.append(contents[i].as_str());
        all.append("\n");
        i += 1;
    }
    proof {
        assert(texts(contents@).take(contents.len() as int) =~= texts(contents@));
    }
    all
}

/// The names of the regular files of a listing whose names are text, in
/// listing order.
pub open spec fn names_of_files(entries: Seq<Listed>) -> Seq<Seq<char>>
    decreases entries.len(),
{
    if entries.len() == 0 {
        Seq::empty()
    } else {
        let before = names_of_files(entries.drop_last());
        match entries.last().name {
            Some(name) if entries.last().is_file => before.push(name@),
            _ => before,
        }
    }
}

/// The names of the regular files among `entries`, in listing order.
/// Directories are left out, and so are files whose name is not text.
pub fn file_names(entries: &Vec<Listed>) -> (names: Vec<String>)
    ensures
        texts(names@) == names_of_files(entries@),
{
    let mut names: Vec<String> = Vec::new();
    let mut i: usize = 0;
    assert(texts(names@) =~= names_of_files(entries@.take(0)));
    while i < entries.len()
        invariant
            i <= entries.len(),
            texts(names@) == names_of_files(entries@.take(i as int)),
        decreases entries.len() - i,
    {
        proof {
            assert(entries@.take(i + 1).drop_last() =~= entries@.take(i as int));
        }
        let ghost before = names@;
        if entries[i].is_file {
            match &entries[i].name {
                Some(name) => {
                    names.push(name.clone());
                    assert(texts(names@) =~= texts(before).push(name@));
                },
                None => {},
            }
        }
        i += 1;
    }
    proof {
        assert(entries@.take(entries.len() as int) =~= entries@);
    }
    names
}

/// The scratch files of a live preview, inside the scratch directory `dir`.
pub fn editor_inputs(dir: &str) -> (inputs: EditorInputs)
    ensures
        inputs.html@ == joined(dir@, "input.html"@),
        inputs.css@ == joined(dir@, "input.css"@),
        inputs.js@ == joined(dir@, "input.js"@),
        inputs.data@ == joined(dir@, "input.json"@),
{
    EditorInputs {
        html: join(dir, "input.html"),
        css: join(dir, "input.css"),
        js: join(dir, "input.js"),
        data: join(dir, "input.json"),
    }
}

/// What is needed to assemble a live preview from the scratch files in
/// `dir`: the build runs on the four scratch files, and the directory is
/// removed `ASSEMBLY_CLEANUP_DELAY_SECS` seconds later.
pub fn editor_assembly(dir: &str) -> (plan: AssemblyPlan)
    ensures
        plan.data_path@ == joined(dir@, "input.json"@),
        plan.command@.program == "bun"@,
        plan.command@.args == builder_args(
            joined(dir@, "input.html"@),
            joined(dir@, "input.css"@),
            joined(dir@, "input.js"@),
            Some(joined(dir@, "input.json"@)),
        ),
        plan.cleanup.directory@ == dir@,
        plan.cleanup.delay_secs == ASSEMBLY_CLEANUP_DELAY_SECS,
{
    let inputs = editor_inputs(dir);
    let command = builder_invocation(
        inputs.html.as_str(),
        inputs.css.as_str(),
        inputs.js.as_str(),
        Some(inputs.data.clone()),
    );
    AssemblyPlan {
        data_path: inputs.data,
        command,
        cleanup: schedule_delete(dir, ASSEMBLY_CLEANUP_DELAY_SECS),
    }
}

/// Issues one token for each image of a rendered live preview, first for
/// the mobile image and then for the desktop image.
pub fn register_previews(service: &mut TempFileService, pair: Preview) -> (tokens: (String, String))
    ensures
        is_token_text(tokens.0@),
        is_token_text(tokens.1@),
        exists|first: u64, second: u64|
            final(service)@ == added(
                added(old(service)@, tokens.0@, pair.mobile@, first as int),
                tokens.1@,
                pair.desktop@,
                second as int,
            ),
{
    let ghost start = service@;
    let mobile = service.add_file(pair.mobile);
    let ghost middle = service@;
    let desktop = service.add_file(pair.desktop);
    proof {
        let first = choose|now: u64| middle == added(start, mobile@, pair.mobile@, now as int);
        let second = choose|now: u64|
            service@ == added(middle, desktop@, pair.desktop@, now as int);
        assert(service@ == added(
            added(start, mobile@, pair.mobile@, first as int),
            desktop@,
            pair.desktop@,
            second as int,
        ));
    }
    (mobile, desktop)
}

impl Site {
    /// The record of a site that has just been made from a template: no
    /// content bindings yet, and the template's name and category as its
    /// metadata.
    pub fn created(
        site_id: &str,
        owner_id: &str,
        directory: &str,
        template_name: &str,
        template_category: &str,
        time: String,
    ) -> (site: Self)
        ensures
            opt_text(site.id) == Some(site_id@),
            site.path@ == directory@,
            site.data@.len() == 0,
            site.metadata@ == (MetaDataView {
                name: template_name@,
                category: Some(template_category@),
                time: time@,
            }),
            site.user@ == owner_id@,
    {
        Site {
            id: Some(site_id.to_owned()),
            path: directory.to_owned(),
            data: Vec::new(),
            metadata: MetaData::stamped(template_name, Some(template_category.to_owned()), time),
            user: owner_id.to_owned(),
        }
    }

    /// Whether the site belongs to `user_id`.
    pub fn is_owner(&self, user_id: &String) -> (owned: bool)
        ensures
            owned == (self.user@ == user_id@),
    {
        self.user == *user_id
    }

    /// The site's three source files.
    pub fn source_paths(&self) -> (sources: SourcePaths)
        ensures
            sources.html@ == joined(self.path@, "index.html"@),
            sources.css@ == joined2(self.path@, "styles"@, "styles.css"@),
            sources.js@ == joined2(self.path@, "js"@, "script.js"@),
    {
        let base = self.path.as_str();
        SourcePaths {
            html: join(base, "index.html"),
            css: join2(base, "styles", "styles.css"),
            js: join2(base, "js", "script.js"),
        }
    }

    /// The directory of the site's uploaded files.
    pub fn resources_dir(&self) -> (dir: String)
        ensures
            dir@ == joined(self.path@, "resources"@),
    {
        join(self.path.as_str(), "resources")
    }

    /// Where an uploaded file named `file_name` is saved: in the site's
    /// `resources` directory, which is made first if it is absent.
    pub fn save_resource(&self, file_name: &str) -> (path: String)
        ensures
            path@ == joined2(self.path@, "resources"@, file_name@),
    {
        join2(self.path.as_str(), "resources", file_name)
    }

    /// Where the three sources of the site are written when the editor
    /// saves them, and the directory of uploaded files, which is made first
    /// if it is absent.
    pub fn save_source(&self) -> (places: (String, SourcePaths))
        ensures
            places.0@ == joined(self.path@, "resources"@),
            places.1.html@ == joined(self.path@, "index.html"@),
            places.1.css@ == joined2(self.path@, "styles"@, "styles.css"@),
            places.1.js@ == joined2(self.path@, "js"@, "script.js"@),
    {
        (self.resources_dir(), self.source_paths())
    }

    /// Where the uploaded file `filename` of this site is served from,
    /// below the home directory `home`.
    pub fn retrieve_resource(&self, home: &str, filename: &str) -> (path: String)
        requires
            self.id is Some,
        ensures
            path@ == joined2(site_dir_of(home@, self.id->Some_0@), "resources"@, filename@),
    {
        let id = self.id.as_ref().unwrap();
        resource_path(home, id.as_str(), filename)
    }

    /// What the editor is shown of a site's sources. `html` is the text of
    /// the page, `js` and `css` are the texts of the files in the script
    /// and style directories, and `resources` lists the uploaded files;
    /// each is absent where it could not be read, and then counts as
    /// empty.
    pub fn get_source(
        html: Option<String>,
        js: Option<Vec<String>>,
        css: Option<Vec<String>>,
        resources: Option<Vec<Listed>>,
    ) -> (source: SiteSource)
        ensures
            source.html@ == match html {
                Some(text) => text@,
                None => Seq::empty(),
            },
            source.js@ == match js {
                Some(files) => concatenated(texts(files@)),
                None => Seq::empty(),
            },
            source.css@ == match css {
                Some(files) => concatenated(texts(files@)),
                None => Seq::empty(),
            },
            texts(source.assets@) == match resources {
                Some(entries) => names_of_files(entries@),
                None => Seq::empty(),
            },
    {
        let html = match html {
            Some(text) => text,
            None => String::new(),
        };
        let js = match &js {
            Some(files) => concat_sources(files),
            None => String::new(),
        };
        let css = match &css {
            Some(files) => concat_sources(files),
            None => String::new(),
        };
        let assets = match &resources {
            Some(entries) => file_names(entries),
            None => {
                let none: Vec<String> = Vec::new();
                assert(texts(none@) =~= Seq::<Seq<char>>::empty());
                none
            },
        };
        SiteSource { html, js, css, assets }
    }

    /// Where the site's own previews are rendered: into `mobile.png` and
    /// `desktop.png` in the site's `previews` directory, which is made
    /// first if it is absent.
    pub fn update_preview(&self) -> (job: PreviewJob)
        ensures
            job.previews_dir@ == joined(self.path@, "previews"@),
            job.targets@ == (PreviewView {
                mobile: joined2(self.path@, "previews"@, "mobile.png"@),
                desktop: joined2(self.path@, "previews"@, "desktop.png"@),
            }),
    {
        let previews_dir = join(self.path.as_str(), "previews");
        let targets = Preview {
            mobile: join(previews_dir.as_str(), "mobile.png"),
            desktop: join(previews_dir.as_str(), "desktop.png"),
        };
        PreviewJob { previews_dir, targets }
    }

    /// The preview image to serve: the mobile one or the desktop one.
    pub fn get_preview(&self, is_mobile: bool) -> (path: String)
        ensures
            path@ == joined2(
                self.path@,
                "previews"@,
                if is_mobile {
                    "mobile.png"@
                } else {
                    "desktop.png"@
                },
            ),
    {
        let base = self.path.as_str();
        if is_mobile {
            join2(base, "previews", "mobile.png")
        } else {
            join2(base, "previews", "desktop.png")
        }
    }

    /// What is needed to assemble the site's page with its own bindings,
    /// using the fresh scratch directory `scratch_dir`: the bindings go to
    /// `input.json` in it, the build runs on the site's sources and that
    /// file, and the scratch directory is removed
    /// `ASSEMBLY_CLEANUP_DELAY_SECS` seconds later.
    pub fn get_html(&self, scratch_dir: &str) -> (plan: AssemblyPlan)
        ensures
            plan.data_path@ == joined(scratch_dir@, "input.json"@),
            plan.command@.program == "bun"@,
            plan.command@.args == builder_args(
                joined(self.path@, "index.html"@),
                joined2(self.path@, "styles"@, "styles.css"@),
                joined2(self.path@, "js"@, "script.js"@),
                Some(plan.data_path@),
            ),
            plan.cleanup.directory@ == scratch_dir@,
            plan.cleanup.delay_secs == ASSEMBLY_CLEANUP_DELAY_SECS,
    {
        let data_path = join(scratch_dir, "input.json");
        let sources = self.source_paths();
        let command = builder_invocation(
            sources.html.as_str(),
            sources.css.as_str(),
            sources.js.as_str(),
            Some(data_path.clone()),
        );
        AssemblyPlan {
            data_path,
            command,
            cleanup: schedule_delete(scratch_dir, ASSEMBLY_CLEANUP_DELAY_SECS),
        }
    }

    /// Whether a request to rename the site took effect: the site has an
    /// identity and the store changed exactly one record.
    pub open spec fn rename_took_effect(&self, outcome: UpdateOutcome) -> bool {
        self.id is Some && outcome == UpdateOutcome::Modified(1)
    }

    /// Settles a request to rename the site to `new_name` at time `time`,
    /// once the store has answered with `outcome`. If the request took
    /// effect, the site carries the new name and time, keeps its category,
    /// and the new name is returned. Otherwise the site is left as it was
    /// and its present name is returned.
    pub fn rename(&mut self, new_name: String, time: String, outcome: UpdateOutcome) -> (name:
        String)
        ensures
            final(self).id == old(self).id,
            final(self).path == old(self).path,
            final(self).data == old(self).data,
            final(self).user == old(self).user,
            name@ == final(self).metadata@.name,
            final(self).metadata@ == if old(self).rename_took_effect(outcome) {
                MetaDataView {
                    name: new_name@,
                    category: old(self).metadata@.category,
                    time: time@,
                }
            } else {
                old(self).metadata@
            },
    {
        let applied = match (&self.id, outcome) {
            (Some(_), UpdateOutcome::Modified(count)) => count == 1,
            _ => false,
        };
        if applied {
            let category = duplicate_opt(&self.metadata.category);
            self.metadata = MetaData { name: new_name.clone(), category, time };
            new_name
        } else {
            self.metadata.name.clone()
        }
    }
}

} // verus!
