//! Request guard for template metadata.

use vstd::hash_set::StringHashSet;
use vstd::prelude::*;

use crate::outcome::{Outcome, Status};
use crate::report::{texts, Report, ReportView};

verus! {

/// The templates that are loaded, and whether they are reloaded as they change.
pub struct ContextManager {
    templates: StringHashSet,
    reloading: bool,
}

/// What a [`ContextManager`] holds.
pub struct ContextView {
    /// The names of the templates that are loaded.
    pub templates: Set<Seq<char>>,
    pub reloading: bool,
}

impl View for ContextManager {
    type V = ContextView;

    closed spec fn view(&self) -> ContextView {
        ContextView { templates: self.templates@, reloading: self.reloading }
    }
}

/// A change of what is loaded.
pub enum Change {
    /// The template of this name was loaded besides the others.
    Load(Seq<char>),
    /// The templates of these names were loaded in place of all others.
    Reload(Seq<String>),
}

impl ContextView {
    /// The context after the template of this name was loaded.
    pub open spec fn loaded(self, name: Seq<char>) -> ContextView {
        ContextView { templates: self.templates.insert(name), ..self }
    }

    /// The context after the change.
    pub open spec fn changed(self, change: Change) -> ContextView {
        match change {
            Change::Load(name) => self.loaded(name),
            Change::Reload(names) => self.reloaded(names),
        }
    }

    /// The context after all of the changes.
    pub open spec fn changed_by(self, changes: Seq<Change>) -> ContextView
        decreases changes.len(),
    {
        if changes.len() == 0 {
            self
        } else {
            self.changed_by(changes.drop_last()).changed(changes.last())
        }
    }

    /// The context after the templates with these names were loaded in place of all others.
    pub open spec fn reloaded(self, names: Seq<String>) -> ContextView {
        ContextView { templates: texts(names).to_set(), ..self }
    }
}

/// The set of the first `n + 1` texts is that of the first `n` and the next.
proof fn lemma_texts_grow(all: Seq<Seq<char>>, n: int)
    requires
        0 <= n < all.len(),
    ensures
        all.take(n + 1).to_set() == all.take(n).to_set().insert(all[n]),
{
    assert(all.take(n + 1)[n] == all[n]);
}

impl ContextManager {
    /// A manager that has loaded no template.
    pub fn new(reloading: bool) -> (manager: ContextManager)
        ensures
            manager@ == (ContextView { templates: Set::empty(), reloading }),
    {
        ContextManager { templates: StringHashSet::new(), reloading }
    }

    /// Records that the template with the given `name` is loaded.
    pub fn load(&mut self, name: String)
        ensures
            final(self)@ == old(self)@.loaded(name@),
    {
        self.templates.insert(name);
    }

    /// Records that the templates with the given `names` were loaded, in place of all others.
    pub fn reload(&mut self, names: Vec<String>)
        ensures
            final(self)@ == old(self)@.reloaded(names@),
    {
        let mut templates = StringHashSet::new();
        let mut i: usize = 0;
        while i < names.len()
            invariant
                i <= names.len(),
                templates@ == texts(names@).take(i as int).to_set(),
            decreases names.len() - i,
        {
            templates.insert(names[i].clone());
            proof {
                lemma_texts_grow(texts(names@), i as int);
            }
            i += 1;
        }
        assert(texts(names@).take(i as int) =~= texts(names@));
        self.templates = templates;
    }

    /// Whether the template with the given `name` is loaded.
    fn contains(&self, name: &str) -> (loaded: bool)
        ensures
            loaded == self@.templates.contains(name@),
    {
        self.templates.contains(name)
    }

    /// Whether templates are reloaded as they change.
    pub fn is_reloading(&self) -> (reloading: bool)
        ensures
            reloading == self@.reloading,
    {
        self.reloading
    }
}

/// Request guard for dynamically querying template metadata.
pub struct Metadata<'a>(&'a ContextManager);

impl<'a> View for Metadata<'a> {
    type V = ContextView;

    closed spec fn view(&self) -> ContextView {
        self.0@
    }
}

/// What is reported where no template fairing was attached.
pub open spec fn missing_fairing() -> ReportView {
    ReportView {
        span: Some("missing_fairing"@),
        heading: "Uninitialized template context: missing fairing."@,
        lines: seq![
            "To use templates, you must attach `Template::fairing()`."@,
            "See the `Template` documentation for more information."@,
        ],
    }
}

impl<'a> Metadata<'a> {
    /// The metadata of what the manager has loaded.
    pub fn new(manager: &'a ContextManager) -> (metadata: Metadata<'a>)
        ensures
            metadata@ == manager@,
    {
        Metadata(manager)
    }

    /// Returns `true` if the template with the given `name` is currently
    /// loaded.  Otherwise, returns `false`.
    pub fn contains_template(&self, name: &str) -> (loaded: bool)
        ensures
            loaded == self@.templates.contains(name@),
    {
        self.0.contains(name)
    }

    /// Returns `true` if template reloading is enabled.
    pub fn reloading(&self) -> (reloading: bool)
        ensures
            reloading == self@.reloading,
    {
        self.0.is_reloading()
    }

    /// Retrieves the template metadata from the context that the application manages. If a
    /// template fairing hasn't been attached, there is none: that is to be reported, and the
    /// guard fails with status `InternalServerError` (`500`).
    pub fn from_request(managed: Option<&'a ContextManager>) -> (guard: (
        Outcome<Metadata<'a>, ()>,
        Option<Report>,
    ))
        ensures
            match managed {
                Some(manager) => {
                    &&& guard.0 matches Outcome::Success(metadata) && metadata@ == manager@
                    &&& guard.1 is None
                },
                None => {
                    &&& guard.0 matches Outcome::Failure(failure) && failure.0.code == 500
                    &&& guard.1 matches Some(report) && report@ == missing_fairing()
                },
            },
    {
        match managed {
            Some(manager) => (Outcome::Success(Metadata::new(manager)), None),
            None => {
                let mut lines: Vec<String> = Vec::new();
                lines.push("To use templates, you must attach `Template::fairing()`.".to_owned());
                lines.push("See the `Template` documentation for more information.".to_owned());
                let report = Report {
                    span: Some("missing_fairing"),
                    heading: "Uninitialized template context: missing fairing.".to_owned(),
                    lines,
                };
                (Outcome::Failure((Status::internal_server_error(), ())), Some(report))
            },
        }
    }
}

/// The metadata tells what is loaded at the moment it is asked: asked again with no reload in
/// between it answers the same, and after a reload it answers whether the name is among those
/// that were loaded then, whatever was loaded before. A reload does not change whether templates
/// are reloaded as they change.
pub proof fn metadata_tells_what_is_loaded_now(
    context: ContextView,
    names: Seq<String>,
    name: Seq<char>,
    first: bool,
    again: bool,
    reloaded: bool,
)
    requires
        first == context.templates.contains(name),
        again == context.templates.contains(name),
        reloaded == context.reloaded(names).templates.contains(name),
    ensures
        again == first,
        reloaded <==> exists|i: int| 0 <= i < names.len() && (#[trigger] names[i])@ == name,
        context.reloaded(names).reloading == context.reloading,
{
    let all = texts(names);
    assert(forall|i: int| 0 <= i < names.len() ==> (#[trigger] names[i])@ == all[i]);
}

/// Whatever changes were made, a template counts as loaded exactly if it was among those of the
/// last reload or was loaded since: what was loaded before that reload, and what was answered
/// then, does not matter.
pub proof fn only_the_last_reload_counts(
    context: ContextView,
    changes: Seq<Change>,
    last: int,
    name: Seq<char>,
)
    requires
        0 <= last < changes.len(),
        changes[last] is Reload,
        forall|i: int| last < i < changes.len() ==> (#[trigger] changes[i]) is Load,
    ensures
        context.changed_by(changes).templates.contains(name) <==> texts(
            changes[last]->Reload_0,
        ).contains(name) || exists|i: int|
            last < i < changes.len() && #[trigger] changes[i] == Change::Load(name),
        context.changed_by(changes).reloading == context.reloading,
    decreases changes.len(),
{
    let before = changes.drop_last();
    if last == changes.len() - 1 {
        reloading_is_kept(context, before);
    } else {
        only_the_last_reload_counts(context, before, last, name);
        assert(forall|i: int|
            0 <= i < changes.len() - 1 ==> #[trigger] changes[i] == before[i]);
    }
}

proof fn reloading_is_kept(context: ContextView, changes: Seq<Change>)
    ensures
        context.changed_by(changes).reloading == context.reloading,
    decreases changes.len(),
{
    if changes.len() > 0 {
        reloading_is_kept(context, changes.drop_last());
    }
}

} // verus!
