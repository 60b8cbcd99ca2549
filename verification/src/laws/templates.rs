//! What the metadata of templates tells of them.

use vstd::prelude::*;

use crate::outcome::Outcome;
use crate::report::{texts, Report};
use crate::templates::metadata::{ContextManager, Metadata};

verus! {

/// A new manager has loaded no template, and tells whether templates are reloaded as it was made
/// to.
pub proof fn new_managers_are_empty<'a>(
    reloading: bool,
    manager: ContextManager,
    is_reloading: bool,
    metadata: Metadata<'a>,
    told: bool,
    name: &str,
    loaded: bool,
)
    requires
        call_ensures(ContextManager::new, (reloading,), manager),
        call_ensures(ContextManager::is_reloading, (&manager,), is_reloading),
        call_ensures(Metadata::<'a>::new, (&manager,), metadata),
        call_ensures(Metadata::<'a>::reloading, (&metadata,), told),
        call_ensures(Metadata::<'a>::contains_template, (&metadata, name), loaded),
    ensures
        !loaded,
        is_reloading == reloading,
        told == reloading,
{
}

/// Once a template was loaded, it and those that were loaded before are, and no other: asked for
/// any name, the metadata says so. Loading does not change whether templates are reloaded.
pub proof fn loading_adds_one<'a>(
    manager: &mut ContextManager,
    before: Metadata<'a>,
    after: Metadata<'a>,
    template: String,
    name: &str,
    loaded_before: bool,
    loaded_after: bool,
    reloading_before: bool,
    reloading_after: bool,
)
    requires
        call_ensures(Metadata::<'a>::new, (&*manager,), before),
        call_ensures(Metadata::<'a>::contains_template, (&before, name), loaded_before),
        call_ensures(Metadata::<'a>::reloading, (&before,), reloading_before),
        call_ensures(ContextManager::load, (manager, template), ()),
        call_ensures(Metadata::<'a>::new, (&*final(manager),), after),
        call_ensures(Metadata::<'a>::contains_template, (&after, name), loaded_after),
        call_ensures(Metadata::<'a>::reloading, (&after,), reloading_after),
    ensures
        loaded_after <==> loaded_before || name@ == template@,
        reloading_after == reloading_before,
{
}

/// Once templates were reloaded, exactly those that were loaded then are, whatever was loaded
/// before. Reloading does not change whether templates are reloaded.
pub proof fn reloading_replaces_all<'a>(
    manager: &mut ContextManager,
    before: Metadata<'a>,
    after: Metadata<'a>,
    templates: Vec<String>,
    name: &str,
    loaded: bool,
    reloading_before: bool,
    reloading_after: bool,
)
    requires
        call_ensures(Metadata::<'a>::new, (&*manager,), before),
        call_ensures(Metadata::<'a>::reloading, (&before,), reloading_before),
        call_ensures(ContextManager::reload, (manager, templates), ()),
        call_ensures(Metadata::<'a>::new, (&*final(manager),), after),
        call_ensures(Metadata::<'a>::contains_template, (&after, name), loaded),
        call_ensures(Metadata::<'a>::reloading, (&after,), reloading_after),
    ensures
        loaded <==> exists|i: int|
            0 <= i < templates@.len() && (#[trigger] templates@[i])@ == name@,
        reloading_after == reloading_before,
{
    let all = texts(templates@);
    assert(forall|i: int| 0 <= i < all.len() ==> (#[trigger] templates@[i])@ == all[i]);
}

/// The guard passes with the metadata of the manager that the application has: it tells of every
/// name, and of reloading, what the manager's own metadata tells, and there is nothing to report.
pub proof fn guards_pass_with_the_manager<'a>(
    manager: &'a ContextManager,
    metadata: Metadata<'a>,
    guard: (Outcome<Metadata<'a>, ()>, Option<Report>),
    guarded: Metadata<'a>,
    name: &str,
    loaded: bool,
    told: bool,
    reloading: bool,
    reloading_told: bool,
    is_reloading: bool,
)
    requires
        call_ensures(Metadata::<'a>::new, (manager,), metadata),
        call_ensures(Metadata::<'a>::from_request, (Some(manager),), guard),
        guard.0 matches Outcome::Success(passed) ==> guarded == passed,
        call_ensures(Metadata::<'a>::contains_template, (&metadata, name), loaded),
        call_ensures(Metadata::<'a>::contains_template, (&guarded, name), told),
        call_ensures(Metadata::<'a>::reloading, (&metadata,), reloading),
        call_ensures(Metadata::<'a>::reloading, (&guarded,), reloading_told),
        call_ensures(ContextManager::is_reloading, (manager,), is_reloading),
    ensures
        guard.0 is Success,
        guard.1 is None,
        told == loaded,
        reloading_told == reloading,
        reloading_told == is_reloading,
{
}

/// Where the application has no manager the guard fails as a fault of the server, and what is
/// reported says how to mend it.
pub proof fn guards_fail_without_a_manager<'a>(
    guard: (Outcome<Metadata<'a>, ()>, Option<Report>),
)
    requires
        call_ensures(Metadata::<'a>::from_request, (None,), guard),
    ensures
        guard.0 matches Outcome::Failure(failure) && failure.0.code == 500,
        guard.1 matches Some(report) && {
            &&& report.span matches Some(span) && span@ == "missing_fairing"@
            &&& report.heading@ == "Uninitialized template context: missing fairing."@
            &&& report.lines@.len() == 2
            &&& report.lines@[0]@ == "To use templates, you must attach `Template::fairing()`."@
            &&& report.lines@[1]@ == "See the `Template` documentation for more information."@
        },
{
    let report = guard.1->0;
    assert(report@.lines.len() == report.lines@.len());
    assert(forall|i: int|
        0 <= i < report.lines@.len() ==> (#[trigger] report.lines@[i])@ == report@.lines[i]);
}

} // verus!
