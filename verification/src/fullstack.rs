//! Decisions of fullstack builds: the cargo features of the client and server
//! builds, and the `RUSTFLAGS` that a build guard puts in place and restores.
//!
//! Debug-mode web builds are very large by default. Unless a debug build is
//! forced, the guards strip some of the debug info (a hello world shrinks from
//! about 40MB to 2MB) or raise the optimisation level, and put the old flags
//! back when they are dropped.
use vstd::prelude::*;

verus! {

/// The features after adding `feature`: appended to the list, or a list of
/// that one feature where there was none.
pub open spec fn features_with(features: Option<Vec<String>>, feature: String) -> Seq<String> {
    match features {
        Some(list) => list@.push(feature),
        None => seq![feature],
    }
}

/// Adds a cargo feature to a build's optional feature list.
pub fn push_feature(features: &mut Option<Vec<String>>, feature: String)
    ensures
        *final(features) is Some,
        (*final(features))->0@ == features_with(*old(features), feature),
        (*old(features)) matches Some(list) ==> {
            &&& (*final(features))->0@.len() == list@.len() + 1
            &&& (*final(features))->0@.take(list@.len() as int) == list@
            &&& (*final(features))->0@.last() == feature
        },
        *old(features) is None ==> (*final(features))->0@ == seq![feature],
{
    match features {
        Some(list) => {
            list.push(feature);
        },
        None => {
            let mut list = Vec::new();
            list.push(feature);
            *features = Some(list);
        },
    }
}

/// Adding a feature keeps every feature already listed, in order, and puts the
/// new one after them: the list grows by exactly one, its old part is the old
/// list, and its last feature is the new one. With no list, the result is that
/// one feature.
pub proof fn law_feature_appended(features: Option<Vec<String>>, feature: String)
    ensures
        features matches Some(list) ==> {
            &&& features_with(features, feature).len() == list@.len() + 1
            &&& features_with(features, feature).take(list@.len() as int) == list@
            &&& features_with(features, feature).last() == feature
        },
        features is None ==> features_with(features, feature) == seq![feature],
{
    if let Some(list) = features {
        assert(list@.push(feature).take(list@.len() as int) =~= list@);
    }
}

/// The value of `RUSTFLAGS` as read, an unset or non-unicode variable counting
/// as empty.
pub open spec fn rustflags_or_empty(current: Option<Seq<char>>) -> Seq<char> {
    match current {
        Some(flags) => flags,
        None => Seq::empty(),
    }
}

/// The debug-assertions flag that non-release builds add.
pub open spec fn debug_assertions_flag(release: bool) -> Seq<char> {
    if release {
        Seq::empty()
    } else {
        " -C debug-assertions"@
    }
}

/// The `RUSTFLAGS` of a web (client) build: the old flags, no debug info, and
/// debug assertions unless it is a release build.
pub open spec fn web_rustflags(old: Seq<char>, release: bool) -> Seq<char> {
    old + " -C debuginfo=none -C strip=debuginfo"@ + debug_assertions_flag(release)
}

/// The `RUSTFLAGS` of a server build: the old flags, optimisation level 2, and
/// debug assertions unless it is a release build.
pub open spec fn server_rustflags(old: Seq<char>, release: bool) -> Seq<char> {
    old + " -C opt-level=2 "@ + debug_assertions_flag(release)
}

/// The view of an optional string.
pub open spec fn opt_string_view(s: Option<String>) -> Option<Seq<char>> {
    match s {
        Some(s) => Some(s@),
        None => None,
    }
}

fn rustflags_value(current: Option<String>) -> (flags: String)
    ensures
        flags@ == rustflags_or_empty(opt_string_view(current)),
{
    match current {
        Some(flags) => flags,
        None => String::new(),
    }
}

/// Keeps the `RUSTFLAGS` that a web build replaced, to put them back.
pub struct FullstackWebEnvGuard {
    old_rustflags: Option<String>,
}

impl FullstackWebEnvGuard {
    /// The flags to restore, if the guard replaced them.
    pub closed spec fn saved(&self) -> Option<Seq<char>> {
        opt_string_view(self.old_rustflags)
    }

    /// Sets up the guard for a web build, given whether a debug build is
    /// forced, whether it is a release build, and the current `RUSTFLAGS`
    /// (`None` when unset). Returns the guard and the value that `RUSTFLAGS`
    /// takes while it lives, `None` where it stays as it is.
    pub fn new(force_debug: bool, release: bool, current_rustflags: Option<String>) -> (r: (Self, Option<String>))
        ensures
            force_debug ==> r.0.saved() is None && r.1 is None,
            !force_debug ==> {
                let old = rustflags_or_empty(opt_string_view(current_rustflags));
                &&& r.0.saved() == Some(old)
                &&& opt_string_view(r.1) == Some(web_rustflags(old, release))
            },
    {
        if force_debug {
            return (FullstackWebEnvGuard { old_rustflags: None }, None);
        }
        let old_rustflags = rustflags_value(current_rustflags);
        let mut flags = old_rustflags.clone();
        flags.append(" -C debuginfo=none -C strip=debuginfo");
        if !release {
            flags.append(" -C debug-assertions");
        }
        proof {
            if release {
                assert(flags@ =~= web_rustflags(old_rustflags@, release));
            }
        }
        (FullstackWebEnvGuard { old_rustflags: Some(old_rustflags) }, Some(flags))
    }

    /// Ends the guard: the value to put back into `RUSTFLAGS`, if the guard
    /// replaced it. A second call gives `None`.
    pub fn restore(&mut self) -> (flags: Option<String>)
        ensures
            opt_string_view(flags) == old(self).saved(),
            final(self).saved() is None,
    {
        self.old_rustflags.take()
    }
}

/// Keeps the `RUSTFLAGS` that a server build replaced, to put them back.
pub struct FullstackServerEnvGuard {
    old_rustflags: Option<String>,
}

impl FullstackServerEnvGuard {
    /// The flags to restore, if the guard replaced them.
    pub closed spec fn saved(&self) -> Option<Seq<char>> {
        opt_string_view(self.old_rustflags)
    }

    /// Sets up the guard for a server build, given whether a debug build is
    /// forced, whether it is a release build, and the current `RUSTFLAGS`
    /// (`None` when unset). Returns the guard and the value that `RUSTFLAGS`
    /// takes while it lives, `None` where it stays as it is.
    pub fn new(force_debug: bool, release: bool, current_rustflags: Option<String>) -> (r: (Self, Option<String>))
        ensures
            force_debug ==> r.0.saved() is None && r.1 is None,
            !force_debug ==> {
                let old = rustflags_or_empty(opt_string_view(current_rustflags));
                &&& r.0.saved() == Some(old)
                &&& opt_string_view(r.1) == Some(server_rustflags(old, release))
            },
    {
        if force_debug {
            return (FullstackServerEnvGuard { old_rustflags: None }, None);
        }
        let old_rustflags = rustflags_value(current_rustflags);
        let mut flags = old_rustflags.clone();
        flags.append(" -C opt-level=2 ");
        if !release {
            flags.append(" -C debug-assertions");
        }
        proof {
            if release {
                assert(flags@ =~= server_rustflags(old_rustflags@, release));
            }
        }
        (FullstackServerEnvGuard { old_rustflags: Some(old_rustflags) }, Some(flags))
    }

    /// Ends the guard: the value to put back into `RUSTFLAGS`, if the guard
    /// replaced it. A second call gives `None`.
    pub fn restore(&mut self) -> (flags: Option<String>)
        ensures
            opt_string_view(flags) == old(self).saved(),
            final(self).saved() is None,
    {
        self.old_rustflags.take()
    }
}

/// The value of `RUSTFLAGS` (`None`: unset) after a guard that may have set
/// `set_to` and later puts back `saved`.
pub open spec fn rustflags_after_guard(
    current: Option<Seq<char>>,
    set_to: Option<Seq<char>>,
    saved: Option<Seq<char>>,
) -> Option<Seq<char>> {
    let during = match set_to {
        Some(flags) => Some(flags),
        None => current,
    };
    match saved {
        Some(flags) => Some(flags),
        None => during,
    }
}

/// The guards restore `RUSTFLAGS`: whatever a guard sets while it lives,
/// putting back what it saved leaves the variable as it was, except that an
/// unset variable comes back set to the empty string.
pub proof fn law_guard_restores_rustflags(force_debug: bool, release: bool, current: Option<Seq<char>>)
    ensures
        ({
            let old = rustflags_or_empty(current);
            let web = if force_debug { None } else { Some(web_rustflags(old, release)) };
            let server = if force_debug { None } else { Some(server_rustflags(old, release)) };
            let saved = if force_debug { None } else { Some(old) };
            &&& rustflags_after_guard(current, web, saved) == (if force_debug { current } else { Some(old) })
            &&& rustflags_after_guard(current, server, saved) == (if force_debug { current } else { Some(old) })
        }),
{
}

} // verus!
