use taskbar_badge::command::set_badge;
use taskbar_badge::glyph::{glyph_paths, Badge};
use taskbar_badge::handle::{IconHandle, WindowHandle};
use taskbar_badge::search::{IconSearch, Probed, SearchBase, SearchCall, SearchEvent};
use taskbar_badge::update::{ShellCall, ShellEvent};

/// A desktop made up for the tests: icon files in two directories, and a
/// taskbar button that shows what was last applied to it.
struct Desktop {
    working_dir: Vec<String>,
    executable_dir: Option<Vec<String>>,
    loaded: Vec<String>,
    probed: Vec<String>,
    overlay: Option<String>,
    contexts_open: u32,
    commands_failed: u32,
}

fn desktop(working_dir: &[&str], executable_dir: Option<&[&str]>) -> Desktop {
    Desktop {
        working_dir: working_dir.iter().map(|p| p.to_string()).collect(),
        executable_dir: executable_dir.map(|d| d.iter().map(|p| p.to_string()).collect()),
        loaded: Vec::new(),
        probed: Vec::new(),
        overlay: None,
        contexts_open: 0,
        commands_failed: 0,
    }
}

fn load_from_desktop(world: &mut Desktop, mut search: IconSearch) -> Option<IconHandle> {
    loop {
        let event = match search.pending() {
            SearchCall::Return(icon) => return icon,
            SearchCall::Locate => SearchEvent::Located(world.executable_dir.is_some()),
            SearchCall::Probe { base, candidate } => {
                let path = search.pending_path().unwrap().clone();
                assert_eq!(path, search.paths[candidate]);
                let (label, files) = match base {
                    SearchBase::WorkingDir => ("cwd", world.working_dir.clone()),
                    SearchBase::ExecutableDir => ("exe", world.executable_dir.clone().unwrap()),
                };
                world.probed.push(format!("{}:{}", label, path));
                if files.contains(&path) {
                    world.loaded.push(path);
                    SearchEvent::Probed(Probed::Loaded(IconHandle::new(world.loaded.len()).unwrap()))
                } else {
                    SearchEvent::Probed(Probed::Missing)
                }
            }
        };
        search.advance(event);
    }
}

fn send_count(world: &mut Desktop, count: u32) {
    let mut update = match set_badge(Some(WindowHandle { addr: 0x1000 }), count) {
        Ok(update) => update,
        Err(_) => {
            world.commands_failed += 1;
            return;
        }
    };
    loop {
        let event = match update.pending() {
            ShellCall::Return(_) => return,
            ShellCall::AcquireContext => {
                world.contexts_open += 1;
                ShellEvent::Succeeded
            }
            ShellCall::ReleaseContext => {
                world.contexts_open -= 1;
                ShellEvent::Succeeded
            }
            ShellCall::ObtainTaskbar | ShellCall::ClearProgress => ShellEvent::Succeeded,
            ShellCall::ClearOverlay => {
                world.overlay = None;
                ShellEvent::Succeeded
            }
            ShellCall::ResolveIcon => {
                let search = update.glyph_search();
                assert_eq!(search.paths, glyph_paths(update.count));
                ShellEvent::Resolved(load_from_desktop(world, search))
            }
            ShellCall::ApplyOverlay(icon) => {
                world.overlay = Some(world.loaded[icon.get() - 1].clone());
                ShellEvent::Succeeded
            }
        };
        update.advance(event);
    }
}

#[test]
fn desktop_count_zero_clears_and_loads_nothing() {
    let mut world = desktop(&["icons/badges/5.ico"], None);
    world.overlay = Some(String::from("icons/badges/5.ico"));
    send_count(&mut world, 0);
    assert_eq!(world.overlay, None);
    assert!(world.probed.is_empty());
    assert!(world.loaded.is_empty());
    assert_eq!(world.contexts_open, 0);
}

#[test]
fn desktop_count_five_shows_five() {
    let mut world = desktop(&["icons/badges/5.ico", "resources/icons/badges/5.ico"], None);
    send_count(&mut world, 5);
    assert_eq!(world.overlay.as_deref(), Some("icons/badges/5.ico"));
    assert_eq!(world.probed, vec![String::from("cwd:icons/badges/5.ico")]);
    assert_eq!(world.contexts_open, 0);
}

#[test]
fn desktop_count_five_tries_primary_then_secondary() {
    let mut world = desktop(&["resources/icons/badges/5.ico"], None);
    send_count(&mut world, 5);
    assert_eq!(world.overlay.as_deref(), Some("resources/icons/badges/5.ico"));
    assert_eq!(
        world.probed,
        vec![
            String::from("cwd:icons/badges/5.ico"),
            String::from("cwd:resources/icons/badges/5.ico"),
        ]
    );
}

#[test]
fn desktop_count_fifteen_shows_nine_plus() {
    let mut world = desktop(&["icons/badges/9+.ico", "icons/badges/9.ico"], None);
    send_count(&mut world, 15);
    assert_eq!(world.overlay.as_deref(), Some("icons/badges/9+.ico"));
    assert_eq!(world.probed, vec![String::from("cwd:icons/badges/9+.ico")]);
}

#[test]
fn desktop_glyph_missing_everywhere_changes_nothing() {
    let mut world = desktop(&["icons/badges/5.ico"], Some(&["icons/badges/4.ico"]));
    world.overlay = Some(String::from("icons/badges/5.ico"));
    send_count(&mut world, 3);
    assert_eq!(world.overlay.as_deref(), Some("icons/badges/5.ico"));
    assert_eq!(
        world.probed,
        vec![
            String::from("cwd:icons/badges/3.ico"),
            String::from("cwd:resources/icons/badges/3.ico"),
            String::from("exe:icons/badges/3.ico"),
            String::from("exe:resources/icons/badges/3.ico"),
        ]
    );
    assert_eq!(world.commands_failed, 0);
    assert_eq!(world.contexts_open, 0);
}

#[test]
fn desktop_repeated_five_keeps_five() {
    let mut world = desktop(&["icons/badges/5.ico"], None);
    send_count(&mut world, 5);
    let once = world.overlay.clone();
    send_count(&mut world, 5);
    assert_eq!(world.overlay, once);
    assert_eq!(world.overlay.as_deref(), Some("icons/badges/5.ico"));
    assert_eq!(world.commands_failed, 0);
    assert_eq!(world.contexts_open, 0);
}

#[test]
fn desktop_glyph_only_beside_the_executable() {
    let mut world = desktop(&[], Some(&["resources/icons/badges/7.ico"]));
    send_count(&mut world, 7);
    assert_eq!(world.overlay.as_deref(), Some("resources/icons/badges/7.ico"));
    assert_eq!(world.probed.len(), 4);
}

#[test]
fn desktop_counts_in_turn() {
    let mut world = desktop(
        &["icons/badges/1.ico", "icons/badges/9.ico", "icons/badges/9+.ico"],
        None,
    );
    send_count(&mut world, 1);
    assert_eq!(world.overlay.as_deref(), Some("icons/badges/1.ico"));
    send_count(&mut world, 9);
    assert_eq!(world.overlay.as_deref(), Some("icons/badges/9.ico"));
    send_count(&mut world, 10);
    assert_eq!(world.overlay.as_deref(), Some("icons/badges/9+.ico"));
    send_count(&mut world, 9999);
    assert_eq!(world.overlay.as_deref(), Some("icons/badges/9+.ico"));
    send_count(&mut world, 0);
    assert_eq!(world.overlay, None);
    assert_eq!(Badge::NoBadge, taskbar_badge::glyph::badge_for_count(0));
}
