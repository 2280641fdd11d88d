use std::path::Path;

use niri::backend::{Backend, Headless, OutputId, Tty, TtyRequest};
use niri::config::misc::{Environment, EnvironmentVariable};
use niri::config::path::ConfigPath;
use niri::geometry::{Point, Rectangle, Size};
use niri::input::binds::ModKey;
use niri::layout::opening_window::{Animation, OpenAnimation};
use niri::utils::id::IdCounter;
use niri::utils::path::{expand_home, same_path};
use niri::utils::scale::supported_scales;
use niri::utils::spawning::{child_env, spawn, spawn_sh, EnvChange, NofileLimit};
use niri::utils::transform::{
    ipc_transform_to_smithay, output_transform, transform_to_ipc, IpcTransform, Transform,
};
use niri::utils::watcher::{CheckResult, Props, Watched, Watcher, WatcherInner};
use niri::utils::{
    center, ensure_min_max_size, ensure_min_max_size_maybe_zero, last_uncommitted_configure,
    should_tile, wayland_time_now, CastSessionId, CastStreamId, CursorIcon, ResizeEdge,
    UncommittedConfigure, XdgResizeEdge,
};

fn rect(x: i32, y: i32, w: i32, h: i32) -> Rectangle {
    Rectangle { loc: Point { x, y }, size: Size { w, h } }
}

#[test]
fn rectangles_meet_and_join() {
    let a = rect(0, 0, 10, 10);
    let b = rect(5, -5, 10, 10);
    assert!(a.overlaps(b));
    assert_eq!(a.intersection(b), Some(rect(5, 0, 5, 5)));
    assert_eq!(a.merge(b), rect(0, -5, 15, 15));
    let beside = rect(10, 0, 3, 3);
    assert!(!a.overlaps(beside));
    assert_eq!(a.intersection(beside), None);
    assert!(a.contains(Point { x: 9, y: 9 }));
    assert!(!a.contains(Point { x: 10, y: 9 }));
    let turned = Rectangle::from_extremities(Point { x: 1, y: 2 }, Point { x: 4, y: 9 });
    assert_eq!(turned, rect(1, 2, 3, 7));
    assert_eq!(center(rect(10, 20, 5, 8)), Point { x: 12, y: 24 });
}

#[test]
fn ids_are_distinct() {
    let mut counter = IdCounter::new();
    let first = counter.next();
    let second = counter.next();
    let third = counter.next();
    assert!(first != second && second != third && first != third);
    let mut counter = IdCounter::new();
    assert_ne!(CastSessionId::next(&mut counter).get(), CastSessionId::next(&mut counter).get());
    assert_ne!(CastStreamId::next(&mut counter).get(), CastStreamId::next(&mut counter).get());
    assert_ne!(OutputId::next(&mut counter).get(), OutputId::next(&mut counter).get());
}

#[test]
fn resizing_shows_its_edges() {
    let corner = ResizeEdge::from(XdgResizeEdge::TopLeft);
    assert_eq!(corner, ResizeEdge { top: true, bottom: false, left: true, right: false });
    assert_eq!(corner.cursor_icon(), CursorIcon::NwResize);
    assert_eq!(ResizeEdge::from(XdgResizeEdge::Right).cursor_icon(), CursorIcon::EResize);
    assert_eq!(ResizeEdge::from(XdgResizeEdge::Nowhere).cursor_icon(), CursorIcon::Default);
    let across = ResizeEdge { top: false, bottom: false, left: true, right: true };
    assert_eq!(across.cursor_icon(), CursorIcon::Default);
}

#[test]
fn sizes_stay_within_limits() {
    assert_eq!(ensure_min_max_size(50, 100, 0), 100);
    assert_eq!(ensure_min_max_size(500, 100, 200), 200);
    assert_eq!(ensure_min_max_size(150, 0, 0), 150);
    // The least size counts more than the largest.
    assert_eq!(ensure_min_max_size(150, 300, 200), 300);
    assert_eq!(ensure_min_max_size_maybe_zero(0, 100, 200), 0);
    assert_eq!(ensure_min_max_size_maybe_zero(0, 200, 200), 200);
    assert_eq!(ensure_min_max_size_maybe_zero(50, 100, 200), 100);
}

#[test]
fn event_times_wrap_around() {
    assert_eq!(wayland_time_now(1, 2_000_000), 1002);
    assert_eq!(wayland_time_now(4_294_968, 0), 704);
}

#[test]
fn serials_are_compared_the_short_way_round() {
    assert_eq!(
        last_uncommitted_configure(true, Some(1), Some(1)),
        Some(UncommittedConfigure::Pending)
    );
    assert_eq!(last_uncommitted_configure(false, None, Some(1)), None);
    assert_eq!(last_uncommitted_configure(false, Some(5), Some(5)), None);
    assert_eq!(
        last_uncommitted_configure(false, Some(6), Some(5)),
        Some(UncommittedConfigure::Acked)
    );
    // A serial beyond the wrap is the later one.
    assert_eq!(last_uncommitted_configure(false, Some(u32::MAX), Some(1)), None);
    assert_eq!(
        last_uncommitted_configure(false, Some(1), Some(u32::MAX)),
        Some(UncommittedConfigure::Acked)
    );
}

#[test]
fn tiling_goes_by_the_nearest_word() {
    assert!(!should_tile(Some(false), Some(true), Some(true), true));
    assert!(should_tile(None, Some(true), Some(false), false));
    assert!(!should_tile(None, Some(false), Some(true), true));
    assert!(should_tile(None, None, Some(false), true));
    assert!(!should_tile(None, None, Some(false), false));
    assert!(should_tile(None, None, None, true));
}

#[test]
fn turning_back_gives_what_was() {
    let all = [
        Transform::Normal,
        Transform::_90,
        Transform::_180,
        Transform::_270,
        Transform::Flipped,
        Transform::Flipped90,
        Transform::Flipped180,
        Transform::Flipped270,
    ];
    for transform in all {
        assert_eq!(ipc_transform_to_smithay(transform_to_ipc(transform)), transform);
        assert_eq!(transform.plus(transform.invert()), Transform::Normal);
    }
    assert_eq!(Transform::_90.plus(Transform::_270), Transform::Normal);
    assert_eq!(Transform::Flipped90.plus(Transform::Flipped), Transform::_90);
    assert_eq!(
        Transform::_90.transform_size(Size { w: 1920, h: 1080 }),
        Size { w: 1080, h: 1920 }
    );
    assert_eq!(
        output_transform(Some(Transform::_90), Some(IpcTransform::_90)),
        Transform::_180
    );
    assert_eq!(output_transform(None, None), Transform::Normal);
}

#[test]
fn small_screens_have_few_scales() {
    // In quarters: from one to two and a quarter.
    assert_eq!(supported_scales(Size { w: 1920, h: 1080 }), vec![4, 5, 6, 7, 8, 9]);
    assert_eq!(supported_scales(Size { w: 640, h: 480 }), Vec::<i32>::new());
    assert_eq!(supported_scales(Size { w: 3840, h: 2160 }).len(), 13);
}

#[test]
fn commands_are_split() {
    assert!(spawn(vec![]).is_none());
    let request = spawn(vec!["a".to_string(), "b".to_string(), "c".to_string()]).unwrap();
    assert_eq!(request.program, "a");
    assert_eq!(request.args, vec!["b".to_string(), "c".to_string()]);
    let request = spawn_sh("echo $HOME".to_string()).unwrap();
    assert_eq!(request.program, "sh");
    assert_eq!(request.args, vec!["-c".to_string(), "echo $HOME".to_string()]);
}

#[test]
fn children_get_a_clean_environment() {
    let environment = Environment(vec![
        EnvironmentVariable { name: "A".to_string(), value: Some("1".to_string()) },
        EnvironmentVariable { name: "B".to_string(), value: None },
    ]);
    let changes = child_env(&environment, true, false);
    let mut put_a = false;
    let mut removed: Vec<String> = Vec::new();
    for change in &changes {
        match change {
            EnvChange::Put(name, value) => {
                assert_eq!((name.as_str(), value.as_str()), ("A", "1"));
                put_a = true;
            }
            EnvChange::Remove(name) => removed.push(name.clone()),
        }
    }
    assert!(put_a);
    assert!(removed.contains(&"B".to_string()));
    assert!(removed.contains(&"RUST_BACKTRACE".to_string()));
    assert!(!removed.contains(&"RUST_LIB_BACKTRACE".to_string()));
}

#[test]
fn the_file_limit_is_raised_and_restored() {
    let limit = NofileLimit { cur: 1024, max: 4096 };
    assert_eq!(limit.raised(), NofileLimit { cur: 4096, max: 4096 });
    assert_eq!(limit.restored(), Some(limit));
    assert_eq!(NofileLimit { cur: 0, max: 4096 }.restored(), None);
}

#[test]
fn a_change_is_found_once() {
    let props = |t: i128| Some(Props { mtime: t, canonical: "/c".to_string() });
    let path = ConfigPath::Explicit("/c".to_string());
    let mut watcher = WatcherInner::new(path, props(1), vec![]);
    assert_eq!(watcher.check(props(1), &vec![]), CheckResult::Unchanged);
    assert_eq!(watcher.check(props(2), &vec![]), CheckResult::Changed);
    assert_eq!(watcher.check(props(2), &vec![]), CheckResult::Unchanged);
    assert_eq!(watcher.check(None, &vec![]), CheckResult::Missing);
    assert_eq!(watcher.check(props(2), &vec![]), CheckResult::Unchanged);
    let other = Watched { path: "/d".to_string(), last_props: None };
    watcher.set_includes(vec![other]);
    let now = vec![Some(Props { mtime: 7, canonical: "/d".to_string() })];
    // Another file counts as changed until the configuration was loaded with it.
    assert_eq!(watcher.check(props(2), &now), CheckResult::Changed);
    assert_eq!(watcher.check(props(2), &now), CheckResult::Changed);
    let seen = Some(Props { mtime: 7, canonical: "/d".to_string() });
    watcher.set_includes(vec![Watched { path: "/d".to_string(), last_props: seen }]);
    assert_eq!(watcher.check(props(2), &now), CheckResult::Unchanged);
    assert!(WatcherInner::should_load(true, CheckResult::Unchanged));
    assert!(WatcherInner::should_load(false, CheckResult::Changed));
    assert!(!WatcherInner::should_load(false, CheckResult::Unchanged));
}

#[test]
fn props_need_a_path_and_a_time() {
    assert!(Props::from_path(None, Some(1)).is_none());
    assert!(Props::from_path(Some("/a".to_string()), None).is_none());
    let props = Props::from_path(Some("/a".to_string()), Some(3)).unwrap();
    assert_eq!((props.mtime, props.canonical.as_str()), (3, "/a"));
    let regular = ConfigPath::Regular {
        user_path: "/u".to_string(),
        system_path: "/s".to_string(),
    };
    let system = Some(Props { mtime: 5, canonical: "/s".to_string() });
    let found = Props::from_config_path(&regular, None, system).unwrap();
    assert_eq!(found.canonical, "/s");
}

#[test]
fn loading_is_asked_for() {
    let mut watcher = Watcher { requests: vec![] };
    watcher.load_config(Some("/x".to_string()));
    watcher.load_config(None);
    assert_eq!(watcher.requests, vec![Some("/x".to_string()), None]);
}

#[test]
fn only_a_tty_is_asked_for_things() {
    let mut tty = Backend::Tty(Tty { seat_name: "seat0".to_string(), requests: vec![] });
    tty.change_vt(3);
    tty.suspend();
    tty.early_import(9);
    tty.set_monitors_active(false);
    tty.on_output_config_changed();
    assert_eq!(tty.seat_name(), "seat0");
    assert!(tty.mod_key(None) == ModKey::Super);
    assert!(tty.mod_key(Some(ModKey::Alt)) == ModKey::Alt);
    assert_eq!(
        tty.tty().requests,
        vec![
            TtyRequest::ChangeVt(3),
            TtyRequest::Suspend,
            TtyRequest::EarlyImport(9),
            TtyRequest::SetMonitorsActive(false),
            TtyRequest::OutputConfigChanged,
        ]
    );
    assert!(tty.tty_checked().is_some());
    let mut headless = Backend::Headless(Headless { seat_name: "headless".to_string() });
    headless.change_vt(3);
    assert!(headless.tty_checked().is_none());
    assert_eq!(headless.headless().seat_name, "headless");
    assert_eq!(headless.seat_name(), "headless");
}

#[test]
fn an_opening_window_is_done_after_its_time() {
    let running = Animation { start_time: 10, duration: 5, current_time: 14 };
    assert!(!OpenAnimation::new(running).is_done());
    let over = Animation { start_time: 10, duration: 5, current_time: 15 };
    assert!(OpenAnimation::new(over).is_done());
    assert!(OpenAnimation::new(over).buffer.is_none());
}

#[test]
fn paths_can_begin_at_home() {
    let expanded = |path: &str| expand_home(path, Some("/home/me")).unwrap();
    assert_eq!(expanded("~/a/b").as_deref(), Some("/home/me/a/b"));
    assert_eq!(expanded("~").as_deref(), Some("/home/me"));
    assert_eq!(expanded("~me/a"), None);
    assert_eq!(expanded("/a/~"), None);
    assert_eq!(expanded(""), None);
    let relative = |path: &str| expand_home(path, Some("")).unwrap();
    assert_eq!(relative("~/a/b").as_deref(), Some("a/b"));
    assert_eq!(relative("~").as_deref(), Some(""));
    assert_eq!(relative("~//./a").as_deref(), Some("a"));
    assert_eq!(relative("~/.a").as_deref(), Some(".a"));
    assert_eq!(relative("~/.").as_deref(), Some(""));
    assert_eq!(relative("~a"), None);
    assert!(expand_home("~/a", None).is_err());
    assert_eq!(expand_home("a", None), Ok(None));
}

#[test]
fn paths_are_compared_by_their_components() {
    assert!(same_path("/c/config.kdl", "/c/./config.kdl"));
    assert!(same_path("/c//config.kdl", "/c/config.kdl/"));
    assert!(same_path("/./c", "/c/."));
    assert!(!same_path("/c/config.kdl", "c/config.kdl"));
    assert!(!same_path("/c/../c/config.kdl", "/c/config.kdl"));
    assert!(!same_path("./c", "c"));
    assert!(same_path("./c", "././c"));
    assert!(same_path("", ""));
    assert!(!same_path("", "."));
    let paths = ["", ".", "/", "./a", "a", "a/", "a/.", "/a", "//a", "/./a", "a/../a", "a/b", "a//b"];
    for a in paths {
        for b in paths {
            assert_eq!(same_path(a, b), Path::new(a) == Path::new(b), "{a:?} {b:?}");
        }
    }
}
