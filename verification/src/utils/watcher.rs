//! Watching the configuration for changes.
use vstd::prelude::*;

use crate::config::path::ConfigPath;

verus! {

/// Properties of a watched file.
///
/// Equality on this means the file did not change.
#[derive(Debug)]
pub struct Props {
    /// Modification time of the watched file, in nanoseconds.
    pub mtime: i128,
    /// Canonical form of the watched path.
    ///
    /// The target of a symbolic link may change without the modification time.
    pub canonical: String,
}

/// Properties of a watched file in the abstract.
pub struct PropsView {
    pub mtime: i128,
    pub canonical: Seq<char>,
}

impl View for Props {
    type V = PropsView;

    open spec fn view(&self) -> PropsView {
        PropsView { mtime: self.mtime, canonical: self.canonical@ }
    }
}

/// Properties, if there are any.
pub open spec fn opt_props(props: Option<Props>) -> Option<PropsView> {
    match props {
        Some(props) => Some(props@),
        None => None,
    }
}

/// What a check of the watched files finds.
#[derive(Clone, Copy, Debug, PartialEq, Eq, Structural)]
pub enum CheckResult {
    /// The configuration is not there.
    Missing,
    Unchanged,
    Changed,
}

/// A file that belongs to the configuration besides the main one.
#[derive(Debug)]
pub struct Watched {
    pub path: String,
    pub last_props: Option<Props>,
}

/// The watched files and what was last seen of them.
#[derive(Debug)]
pub struct WatcherInner {
    /// The paths we're watching.
    pub path: ConfigPath,
    /// Last observed props of the watched file.
    pub last_props: Option<Props>,
    /// Last observed props for included files.
    pub includes: Vec<Watched>,
}

/// The requests to load the configuration that were not yet carried out.
#[derive(Debug)]
pub struct Watcher {
    /// A path to load from then on, or none to load again what is watched.
    pub requests: Vec<Option<String>>,
}

impl Watcher {
    /// Asks for the configuration to be loaded, from another path if one is given.
    pub fn load_config(&mut self, path: Option<String>)
        ensures
            final(self).requests@ == old(self).requests@.push(path),
    {
        self.requests.push(path);
    }
}

/// Compares properties.
fn same_props(a: &Option<Props>, b: &Option<Props>) -> (r: bool)
    ensures
        r == (opt_props(*a) == opt_props(*b)),
{
    match (a, b) {
        (Some(a), Some(b)) => a.mtime == b.mtime && a.canonical == b.canonical,
        (None, None) => true,
        _ => false,
    }
}

impl Props {
    /// The properties of a file, if all of them could be found out.
    pub fn from_path(canonical: Option<String>, mtime: Option<i128>) -> (r: Option<Props>)
        ensures
            match (canonical, mtime) {
                (Some(canonical), Some(mtime)) => r == Some(Props { mtime, canonical }),
                _ => r is None,
            },
    {
        let Some(canonical) = canonical else {
            return None;
        };
        let Some(mtime) = mtime else {
            return None;
        };
        Some(Props { mtime, canonical })
    }

    /// The properties of the configuration: those of the first path that has a file.
    ///
    /// `first` belongs to the explicit or the user's path, `second` to that of the system.
    pub fn from_config_path(path: &ConfigPath, first: Option<Props>, second: Option<Props>) -> (r: Option<
        Props,
    >)
        ensures
            r == (if *path is Explicit || first is Some {
                first
            } else {
                second
            }),
    {
        match path {
            ConfigPath::Explicit(_) => first,
            ConfigPath::Regular { .. } => if first.is_some() {
                first
            } else {
                second
            },
        }
    }
}

/// Whether one of the other files has changed.
pub open spec fn any_changed(includes: Seq<Watched>, now: Seq<Option<Props>>) -> bool {
    exists|i: int|
        0 <= i < includes.len() && opt_props((#[trigger] includes[i]).last_props) != opt_props(
            now[i],
        )
}

/// What a check finds.
pub open spec fn check_result(
    last: Option<PropsView>,
    includes: Seq<Watched>,
    main: Option<PropsView>,
    now: Seq<Option<Props>>,
) -> CheckResult {
    if main is None {
        CheckResult::Missing
    } else if main != last || any_changed(includes, now) {
        CheckResult::Changed
    } else {
        CheckResult::Unchanged
    }
}

impl WatcherInner {
    /// Starts to watch a configuration, given what is seen of its files.
    pub fn new(path: ConfigPath, props: Option<Props>, includes: Vec<Watched>) -> (r: WatcherInner)
        ensures
            r.path == path,
            r.last_props == props,
            r.includes@ == includes@,
    {
        let mut rv = WatcherInner { path, last_props: props, includes: Vec::new() };
        rv.set_includes(includes);
        rv
    }

    /// Looks for changes, given what is now seen of the main file and, in the order of the watched
    /// ones, of the others.
    ///
    /// If another file goes missing while the main one is unchanged, that is a change.
    pub fn check(&mut self, main: Option<Props>, now: &Vec<Option<Props>>) -> (r: CheckResult)
        requires
            now@.len() == old(self).includes@.len(),
        ensures
            r == check_result(
                opt_props(old(self).last_props),
                old(self).includes@,
                opt_props(main),
                now@,
            ),
            *final(self) == (WatcherInner {
                last_props: final(self).last_props,
                ..*old(self)
            }),
            opt_props(final(self).last_props) == (if main is Some {
                opt_props(main)
            } else {
                opt_props(old(self).last_props)
            }),
    {
        if main.is_none() {
            return CheckResult::Missing;
        }
        if !same_props(&self.last_props, &main) {
            self.last_props = main;
            return CheckResult::Changed;
        }
        let mut i: usize = 0;
        while i < self.includes.len()
            invariant
                i <= self.includes@.len(),
                now@.len() == self.includes@.len(),
                *self == *old(self),
                main is Some,
                opt_props(self.last_props) == opt_props(main),
                forall|k: int|
                    0 <= k < i ==> opt_props((#[trigger] self.includes@[k]).last_props) == opt_props(
                        now@[k],
                    ),
            decreases self.includes@.len() - i,
        {
            if !same_props(&self.includes[i].last_props, &now[i]) {
                assert(opt_props(self.includes@[i as int].last_props) != opt_props(now@[i as int]));
                return CheckResult::Changed;
            }
            i = i + 1;
        }
        CheckResult::Unchanged
    }

    /// Watches other files from then on besides the main one.
    pub fn set_includes(&mut self, includes: Vec<Watched>)
        ensures
            *final(self) == (WatcherInner { includes, ..*old(self) }),
    {
        self.includes = includes;
    }

    /// Whether the configuration is to be loaded after a check. While it is not there, nothing is, even
    /// if that was asked for.
    pub fn should_load(requested: bool, found: CheckResult) -> (r: bool)
        ensures
            r == (found != CheckResult::Missing && (requested || found == CheckResult::Changed)),
    {
        let mut should_load = requested;
        match found {
            CheckResult::Missing => {
                return false;
            },
            CheckResult::Unchanged => {},
            CheckResult::Changed => {
                should_load = true;
            },
        }
        should_load
    }
}

/// A change of the main file is found once: looking again finds nothing new.
pub proof fn law_change_is_found_once(
    last: Option<PropsView>,
    includes: Seq<Watched>,
    main: Option<PropsView>,
    now: Seq<Option<Props>>,
)
    requires
        main is Some,
        !any_changed(includes, now),
    ensures
        check_result(main, includes, main, now) == CheckResult::Unchanged,
{
}

/// A check finds a change just if the main file is there, and it or another file is not as it was. A main file
/// that is gone is no change.
pub proof fn law_what_a_check_finds(
    last: Option<PropsView>,
    includes: Seq<Watched>,
    main: Option<PropsView>,
    now: Seq<Option<Props>>,
)
    ensures
        ({
            let found = check_result(last, includes, main, now);
            let others = exists|i: int|
                0 <= i < includes.len() && opt_props((#[trigger] includes[i]).last_props) != opt_props(
                    now[i],
                );
            &&& found is Missing <==> main is None
            &&& found is Changed <==> main is Some && (main != last || others)
            &&& found is Unchanged <==> main is Some && main == last && !others
        }),
{
}

} // verus!
