//! Making a new site from a template.
//!
//! The template's directory tree is copied into the site's own directory,
//! except for the template's cached previews: a new site gets previews of
//! its own from its first render. This module plans the copy from a listing
//! of the template's tree and builds the new site's record; reading the
//! tree and carrying the plan out belong to the caller.

use vstd::prelude::*;
use crate::models::site::{
    site_dir, site_dir_of, timestamp_now, timestamp_text, MetaDataView, Site,
};
use crate::models::template::{Template, TemplateStore, TemplateView};
use crate::paths::{join_all, joined, joined2, joined_all, opt_text, texts};
use crate::services::preview::{
    builder_args, builder_invocation, AssemblyError, Invocation, Preview, PreviewView, RenderError,
};

verus! {

/// One entry of a directory tree: its path below the root of the tree,
/// component by component, and whether it is a directory.
pub struct DirEntry {
    pub path: Vec<String>,
    pub is_dir: bool,
}

/// What an entry of a directory tree means.
pub struct DirEntryView {
    pub path: Seq<Seq<char>>,
    pub is_dir: bool,
}

impl View for DirEntry {
    type V = DirEntryView;

    open spec fn view(&self) -> DirEntryView {
        DirEntryView { path: texts(self.path@), is_dir: self.is_dir }
    }
}

/// One step of a copy: make the directory `to`, or copy the file `from`
/// to `to`. `relative` is the path of both below their roots.
pub struct CopyStep {
    pub relative: Vec<String>,
    pub is_dir: bool,
    pub from: String,
    pub to: String,
}

/// What a step of a copy means.
pub struct CopyStepView {
    pub relative: Seq<Seq<char>>,
    pub is_dir: bool,
    pub from: Seq<char>,
    pub to: Seq<char>,
}

impl View for CopyStep {
    type V = CopyStepView;

    open spec fn view(&self) -> CopyStepView {
        CopyStepView {
            relative: texts(self.relative@),
            is_dir: self.is_dir,
            from: self.from@,
            to: self.to@,
        }
    }
}

/// The meanings of a sequence of entries.
pub open spec fn entry_views(entries: Seq<DirEntry>) -> Seq<DirEntryView> {
    entries.map_values(|e: DirEntry| e@)
}

/// The meanings of a sequence of steps.
pub open spec fn step_views(steps: Seq<CopyStep>) -> Seq<CopyStepView> {
    steps.map_values(|s: CopyStep| s@)
}

/// Whether an entry is left out of a copy that excludes `exclude`: it is
/// the directory of that name directly below the root, or lies inside it.
/// A plain file of that name is copied like any other.
pub open spec fn left_out(entry: DirEntryView, exclude: Option<Seq<char>>) -> bool {
    match exclude {
        Some(name) => entry.path.len() > 0 && entry.path[0] == name && (entry.is_dir
            || entry.path.len() > 1),
        None => false,
    }
}

/// The step that copies `entry` from the tree at `src` to the tree at `dst`.
pub open spec fn step_for(src: Seq<char>, dst: Seq<char>, entry: DirEntryView) -> CopyStepView {
    CopyStepView {
        relative: entry.path,
        is_dir: entry.is_dir,
        from: joined_all(src, entry.path),
        to: joined_all(dst, entry.path),
    }
}

/// The steps for the entries that are not left out, in listing order.
pub open spec fn steps_for(
    src: Seq<char>,
    dst: Seq<char>,
    entries: Seq<DirEntryView>,
    exclude: Option<Seq<char>>,
) -> Seq<CopyStepView>
    decreases entries.len(),
{
    if entries.len() == 0 {
        Seq::empty()
    } else {
        let before = steps_for(src, dst, entries.drop_last(), exclude);
        if left_out(entries.last(), exclude) {
            before
        } else {
            before.push(step_for(src, dst, entries.last()))
        }
    }
}

/// The whole copy: first the root of the new tree is made, then every
/// entry that is not left out is copied, in listing order.
pub open spec fn copy_plan(
    src: Seq<char>,
    dst: Seq<char>,
    entries: Seq<DirEntryView>,
    exclude: Option<Seq<char>>,
) -> Seq<CopyStepView> {
    seq![step_for(src, dst, DirEntryView { path: Seq::empty(), is_dir: true })] + steps_for(
        src,
        dst,
        entries,
        exclude,
    )
}

/// A copy of a sequence of strings.
fn duplicate_texts(strings: &Vec<String>) -> (copy: Vec<String>)
    ensures
        texts(copy@) == texts(strings@),
{
    let mut copy: Vec<String> = Vec::new();
    let mut i: usize = 0;
    while i < strings.len()
        invariant
            i <= strings.len(),
            texts(copy@) == texts(strings@).take(i as int),
        decreases strings.len() - i,
    {
        let ghost before = copy@;
        let text = strings[i].clone();
        copy.push(text);
        proof {
            assert(texts(copy@) =~= texts(before).push(text@));
            assert(texts(strings@).take(i + 1) =~= texts(strings@).take(i as int).push(
                strings@[i as int]@,
            ));
        }
        i += 1;
    }
    proof {
        assert(texts(strings@).take(strings.len() as int) =~= texts(strings@));
    }
    copy
}

/// Whether `entry` is left out of a copy that excludes `exclude`.
fn is_left_out(entry: &DirEntry, exclude: &Option<String>) -> (out: bool)
    ensures
        out == left_out(entry@, opt_text(*exclude)),
{
    match exclude {
        Some(name) => {
            if entry.path.len() == 0 {
                false
            } else {
                entry.path[0] == *name && (entry.is_dir || entry.path.len() > 1)
            }
        },
        None => false,
    }
}

/// Plans the copy of the directory tree at `src`, listed in `entries`, to
/// `dst`. Every entry is copied to the same place below `dst` that it has
/// below `src`, except the directory named `exclude` directly below `src`
/// and everything inside it.
pub fn copy_dir_all(src: &str, dst: &str, entries: &Vec<DirEntry>, exclude: Option<&str>) -> (plan:
    Vec<CopyStep>)
    ensures
        step_views(plan@) == copy_plan(
            src@,
            dst@,
            entry_views(entries@),
            match exclude {
                Some(name) => Some(name@),
                None => None,
            },
        ),
{
    let excluded: Option<String> = match exclude {
        Some(name) => Some(name.to_owned()),
        None => None,
    };
    let ghost listed = entry_views(entries@);
    let ghost root = step_for(src@, dst@, DirEntryView { path: Seq::empty(), is_dir: true });
    let mut plan: Vec<CopyStep> = Vec::new();
    let no_parts: Vec<String> = Vec::new();
    assert(texts(no_parts@) =~= Seq::<Seq<char>>::empty());
    plan.push(
        CopyStep { relative: no_parts, is_dir: true, from: src.to_owned(), to: dst.to_owned() },
    );
    assert(step_views(plan@) =~= seq![root] + steps_for(
        src@,
        dst@,
        listed.take(0),
        opt_text(excluded),
    ));
    let mut i: usize = 0;
    while i < entries.len()
        invariant
            i <= entries.len(),
            listed == entry_views(entries@),
            root == step_for(src@, dst@, DirEntryView { path: Seq::empty(), is_dir: true }),
            step_views(plan@) == seq![root] + steps_for(
                src@,
                dst@,
                listed.take(i as int),
                opt_text(excluded),
            ),
        decreases entries.len() - i,
    {
        proof {
            assert(listed.take(i + 1).drop_last() =~= listed.take(i as int));
            assert(listed.take(i + 1).last() == entries@[i as int]@);
        }
        let entry = &entries[i];
        if !is_left_out(entry, &excluded) {
            let ghost before = step_views(plan@);
            let step = CopyStep {
                relative: duplicate_texts(&entry.path),
                is_dir: entry.is_dir,
                from: join_all(src, &entry.path),
                to: join_all(dst, &entry.path),
            };
            assert(step@ == step_for(src@, dst@, entry@));
            plan.push(step);
            assert(step_views(plan@) =~= before.push(step_for(src@, dst@, entry@)));
        }
        i += 1;
    }
    proof {
        assert(listed.take(entries.len() as int) =~= listed);
    }
    plan
}

/// Nothing that is left out is copied: every step of a copy is for an
/// entry that is not left out, and puts it at its own place below the
/// destination.
pub proof fn nothing_left_out_is_copied(
    src: Seq<char>,
    dst: Seq<char>,
    entries: Seq<DirEntryView>,
    exclude: Option<Seq<char>>,
    k: int,
)
    requires
        0 <= k < copy_plan(src, dst, entries, exclude).len(),
    ensures
        ({
            let step = copy_plan(src, dst, entries, exclude)[k];
            &&& !left_out(DirEntryView { path: step.relative, is_dir: step.is_dir }, exclude)
            &&& step.from == joined_all(src, step.relative)
            &&& step.to == joined_all(dst, step.relative)
        }),
    decreases entries.len(),
{
    if k > 0 && entries.len() > 0 {
        let before = steps_for(src, dst, entries.drop_last(), exclude);
        if k - 1 < before.len() {
            nothing_left_out_is_copied(src, dst, entries.drop_last(), exclude, k);
        }
    }
}

/// Everything else is copied: every entry that is not left out has its
/// step in the copy.
pub proof fn everything_else_is_copied(
    src: Seq<char>,
    dst: Seq<char>,
    entries: Seq<DirEntryView>,
    exclude: Option<Seq<char>>,
    i: int,
)
    requires
        0 <= i < entries.len(),
        !left_out(entries[i], exclude),
    ensures
        copy_plan(src, dst, entries, exclude).contains(step_for(src, dst, entries[i])),
    decreases entries.len(),
{
    let plan = copy_plan(src, dst, entries, exclude);
    let before = steps_for(src, dst, entries.drop_last(), exclude);
    if i == entries.len() - 1 {
        assert(plan[1 + before.len() as int] == step_for(src, dst, entries[i]));
    } else {
        everything_else_is_copied(src, dst, entries.drop_last(), exclude, i);
        let shorter = copy_plan(src, dst, entries.drop_last(), exclude);
        let k = choose|k: int| 0 <= k < shorter.len() && shorter[k] == step_for(src, dst, entries[i]);
        assert(plan[k] == shorter[k]);
    }
}

/// Why a site could not be made.
#[derive(PartialEq, Eq, Structural, Clone, Copy, Debug)]
pub enum MaterializeError {
    /// No template has the identity asked for.
    TemplateNotFound,
    /// The copy, or another file operation, failed.
    IoFailure,
    /// The build or the render program failed or could not be started.
    ProcessFailed,
    /// The build program's output is not valid text.
    EncodingFailure,
    /// The clock's reading gives no timestamp for the new record.
    ClockFailure,
}

impl MaterializeError {
    /// What a failed assembly of the new site's page means for its making.
    pub fn from_assembly(error: &AssemblyError) -> (reason: Self)
        ensures
            reason == match *error {
                AssemblyError::ProcessFailed(_) => MaterializeError::ProcessFailed,
                AssemblyError::EncodingError => MaterializeError::EncodingFailure,
            },
    {
        match error {
            AssemblyError::ProcessFailed(_) => MaterializeError::ProcessFailed,
            AssemblyError::EncodingError => MaterializeError::EncodingFailure,
        }
    }

    /// What a failed first render of the new site means for its making.
    pub fn from_render(error: RenderError) -> (reason: Self)
        ensures
            reason == match error {
                RenderError::IoFailure => MaterializeError::IoFailure,
                RenderError::ProcessFailed => MaterializeError::ProcessFailed,
            },
    {
        match error {
            RenderError::IoFailure => MaterializeError::IoFailure,
            RenderError::ProcessFailed => MaterializeError::ProcessFailed,
        }
    }
}

/// Everything that making one site consists of. The parts are carried out
/// strictly in the order in which they stand here: the copy, then the
/// storing of the record, then the build of the new site's page and its
/// first render. A failure at any point ends the making; what was done
/// before it is left as it is.
pub struct Materialization {
    /// The new site's own directory.
    pub site_dir: String,
    /// The copy of the template's tree into that directory.
    pub steps: Vec<CopyStep>,
    /// The record of the new site, to be stored once the copy is done.
    pub record: Site,
    /// The build of the new site's page: from the site's own copy of the
    /// sources, with the default bindings.
    pub command: Invocation,
    /// The new site's own preview directory, made before the first render
    /// if it is absent.
    pub previews_dir: String,
    /// Where the first render puts the new site's previews.
    pub targets: Preview,
}

/// What is left of a making once the copy is done and the record stored:
/// the build of the page and the first render.
pub struct FirstRender {
    /// The build of the new site's page.
    pub command: Invocation,
    /// The new site's own preview directory.
    pub previews_dir: String,
    /// Where the render puts the previews.
    pub targets: Preview,
}

/// The name of the directory that holds cached previews.
pub open spec fn previews_name() -> Seq<char> {
    "previews"@
}

/// Whether `made` is the plan for making the site `site_id` of the user
/// `user_id` below `home` from `template`, whose tree is listed in
/// `listing`, with a record stamped `time`.
pub open spec fn is_making(
    made: Materialization,
    template: TemplateView,
    home: Seq<char>,
    site_id: Seq<char>,
    user_id: Seq<char>,
    listing: Seq<DirEntryView>,
    time: Seq<char>,
) -> bool {
    &&& made.site_dir@ == site_dir_of(home, site_id)
    &&& step_views(made.steps@) == copy_plan(
        template.dir_path,
        made.site_dir@,
        listing,
        Some(previews_name()),
    )
    &&& opt_text(made.record.id) == Some(site_id)
    &&& made.record.path@ == made.site_dir@
    &&& made.record.data@.len() == 0
    &&& made.record.metadata@ == (MetaDataView {
        name: template.name,
        category: Some(template.category),
        time,
    })
    &&& made.record.user@ == user_id
    &&& made.command@.program == "bun"@
    &&& made.command@.args == builder_args(
        joined(made.site_dir@, "index.html"@),
        joined2(made.site_dir@, "styles"@, "styles.css"@),
        joined2(made.site_dir@, "js"@, "script.js"@),
        None,
    )
    &&& made.previews_dir@ == joined(made.site_dir@, previews_name())
    &&& made.targets@ == (PreviewView {
        mobile: joined2(made.site_dir@, previews_name(), "mobile.png"@),
        desktop: joined2(made.site_dir@, previews_name(), "desktop.png"@),
    })
}

/// Whether `made` is what planning a making comes to when the clock gives
/// the timestamp `time`: the plan stamped with it, or `ClockFailure` where
/// there is no timestamp.
pub open spec fn is_making_stamped(
    made: Result<Materialization, MaterializeError>,
    template: TemplateView,
    home: Seq<char>,
    site_id: Seq<char>,
    user_id: Seq<char>,
    listing: Seq<DirEntryView>,
    time: Option<Seq<char>>,
) -> bool {
    match time {
        Some(text) => made matches Ok(plan) && is_making(
            plan,
            template,
            home,
            site_id,
            user_id,
            listing,
            text,
        ),
        None => made matches Err(reason) && reason == MaterializeError::ClockFailure,
    }
}

/// Settles the copy of a making. If the copy succeeded, the new record is
/// added to the stored sites and the build and first render remain to be
/// done. If it failed, the making fails with `IoFailure` and the stored
/// sites are left as they were: a record is stored only after its copy.
pub fn store_after_copy(sites: &mut Vec<Site>, made: Materialization, copied: bool) -> (next:
    Result<FirstRender, MaterializeError>)
    ensures
        final(sites)@ == if copied {
            old(sites)@.push(made.record)
        } else {
            old(sites)@
        },
        match next {
            Ok(first) => copied && first.command == made.command && first.previews_dir
                == made.previews_dir && first.targets == made.targets,
            Err(reason) => !copied && reason == MaterializeError::IoFailure,
        },
{
    if copied {
        sites.push(made.record);
        Ok(
            FirstRender {
                command: made.command,
                previews_dir: made.previews_dir,
                targets: made.targets,
            },
        )
    } else {
        Err(MaterializeError::IoFailure)
    }
}

/// The meaning of the result of a making.
pub open spec fn made_view(made: Result<String, MaterializeError>) -> Result<
    Seq<char>,
    MaterializeError,
> {
    match made {
        Ok(id) => Ok(id@),
        Err(reason) => Err(reason),
    }
}

/// What a making comes to once its first render is over: the new site's
/// identity if the render succeeded, and the render's failure otherwise.
pub open spec fn making_result(site_id: Seq<char>, rendered: Result<Preview, RenderError>) -> Result<
    Seq<char>,
    MaterializeError,
> {
    match rendered {
        Ok(_) => Ok(site_id),
        Err(RenderError::IoFailure) => Err(MaterializeError::IoFailure),
        Err(RenderError::ProcessFailed) => Err(MaterializeError::ProcessFailed),
    }
}

/// Settles a making after its first render.
pub fn after_first_render(site_id: String, rendered: &Result<Preview, RenderError>) -> (made: Result<
    String,
    MaterializeError,
>)
    ensures
        made_view(made) == making_result(site_id@, *rendered),
{
    match rendered {
        Ok(_) => Ok(site_id),
        Err(reason) => Err(MaterializeError::from_render(*reason)),
    }
}

/// A site that is about to be made: its identity, its directory, and the
/// template it is made from.
pub struct SiteDraft {
    pub site_id: String,
    pub site_dir: String,
    pub user_id: String,
    pub template: Template,
}

impl Site {
    /// Begins the making of the site `site_id` for the user `user_id` from
    /// the template `template_id`: derives the site's directory below
    /// `home` from its identity and looks the template up in `store`.
    /// Fails with `TemplateNotFound` exactly if the store holds no template
    /// of that identity. The identity is allocated by the caller, fresh for
    /// every site.
    pub fn new(site_id: &str, template_id: &str, user_id: &str, home: &str, store: &TemplateStore) -> (begun:
        Result<SiteDraft, MaterializeError>)
        requires
            store.wf(),
        ensures
            match begun {
                Ok(draft) => {
                    &&& draft.site_id@ == site_id@
                    &&& draft.site_dir@ == site_dir_of(home@, site_id@)
                    &&& draft.user_id@ == user_id@
                    &&& draft.template@.id == template_id@
                    &&& store@.dom().contains(draft.template@.name)
                    &&& store@[draft.template@.name] == draft.template@
                },
                Err(reason) => reason == MaterializeError::TemplateNotFound && forall|
                    name: Seq<char>,
                | #[trigger]
                    store@.dom().contains(name) ==> store@[name].id != template_id@,
            },
    {
        let dir = site_dir(home, site_id);
        match locate_template(store, template_id) {
            Ok(template) => Ok(
                SiteDraft {
                    site_id: site_id.to_owned(),
                    site_dir: dir,
                    user_id: user_id.to_owned(),
                    template: template.duplicate(),
                },
            ),
            Err(reason) => Err(reason),
        }
    }
}

/// Looks up the template that a new site is to be made from.
pub fn locate_template<'a>(store: &'a TemplateStore, template_id: &str) -> (found: Result<
    &'a Template,
    MaterializeError,
>)
    requires
        store.wf(),
    ensures
        match found {
            Ok(template) => template@.id == template_id@ && store@.dom().contains(
                template@.name,
            ) && store@[template@.name] == template@,
            Err(reason) => reason == MaterializeError::TemplateNotFound && forall|name: Seq<char>| #[trigger]
                store@.dom().contains(name) ==> store@[name].id != template_id@,
        },
{
    match store.find_by_id(template_id) {
        Some(template) => Ok(template),
        None => Err(MaterializeError::TemplateNotFound),
    }
}

impl Template {
    /// Plans the making of the site `site_id` for the user `user_id` from
    /// this template, whose directory tree is listed in `listing`, stamping
    /// the new record with the present moment. Fails with `ClockFailure`
    /// exactly if the clock's reading gives no timestamp. See
    /// `build_site_at` for the parts of the plan.
    pub fn build_site(
        &self,
        home: &str,
        site_id: &str,
        user_id: &str,
        listing: &Vec<DirEntry>,
    ) -> (made: Result<Materialization, MaterializeError>)
        ensures
            exists|reading: Option<(u64, u32)>|
                is_making_stamped(
                    made,
                    self@,
                    home@,
                    site_id@,
                    user_id@,
                    entry_views(listing@),
                    #[trigger] timestamp_text(reading),
                ),
    {
        match timestamp_now() {
            Some(time) => Ok(self.build_site_at(home, site_id, user_id, listing, time)),
            None => Err(MaterializeError::ClockFailure),
        }
    }

    /// Plans the making of the site `site_id` for the user `user_id` from
    /// this template, whose directory tree is listed in `listing`.
    ///
    /// The site's directory is derived from its identity. The template's
    /// tree is copied into it without the template's `previews` directory.
    /// The new record has no content bindings, carries the template's name
    /// and category, and is stamped with `time`. The new site's page is
    /// built from the site's own copy of the sources with the default
    /// bindings, and the first previews go to `previews/mobile.png` and
    /// `previews/desktop.png` in the site's own directory.
    pub fn build_site_at(
        &self,
        home: &str,
        site_id: &str,
        user_id: &str,
        listing: &Vec<DirEntry>,
        time: String,
    ) -> (made: Materialization)
        ensures
            is_making(made, self@, home@, site_id@, user_id@, entry_views(listing@), time@),
    {
        let dir = site_dir(home, site_id);
        let steps = copy_dir_all(self.dir_path.as_str(), dir.as_str(), listing, Some("previews"));
        let record = Site::created(
            site_id,
            user_id,
            dir.as_str(),
            self.name.as_str(),
            self.category.as_str(),
            time,
        );
        let sources = record.source_paths();
        let command = builder_invocation(
            sources.html.as_str(),
            sources.css.as_str(),
            sources.js.as_str(),
            None,
        );
        let job = record.update_preview();
        Materialization {
            site_dir: dir,
            steps,
            record,
            command,
            previews_dir: job.previews_dir,
            targets: job.targets,
        }
    }
}

/// A new site never inherits the template's previews: no step of its
/// making copies the template's `previews` directory or anything inside
/// it.
pub proof fn previews_are_never_copied(
    template_dir: Seq<char>,
    site_dir: Seq<char>,
    listing: Seq<DirEntryView>,
    k: int,
)
    requires
        0 <= k < copy_plan(template_dir, site_dir, listing, Some(previews_name())).len(),
    ensures
        ({
            let step = copy_plan(template_dir, site_dir, listing, Some(previews_name()))[k];
            !(step.relative.len() > 0 && step.relative[0] == previews_name() && (step.is_dir
                || step.relative.len() > 1))
        }),
{
    nothing_left_out_is_copied(template_dir, site_dir, listing, Some(previews_name()), k);
}

} // verus!
