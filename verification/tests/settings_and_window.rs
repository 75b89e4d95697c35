use croh::croc::{CrocConfig, Curve, HashAlgorithm};
use croh::settings::{
    croc_status, dnd_notice, instance_prefix, save_browse_settings, save_settings, save_status,
    set_device_nickname, set_dnd_mode, set_screen_streaming, show_croc, show_endpoint,
    show_settings, toggle_keep_completed_transfers, toggle_session_stats, Config, SettingsForm,
};
use croh::window::SizeSaver;

fn s(t: &str) -> String {
    t.to_string()
}

fn config() -> Config {
    Config {
        download_dir: s("/d"),
        croc: CrocConfig {
            default_hash: Some(HashAlgorithm::Xxhash),
            default_curve: Some(Curve::Siec),
            throttle: Some(s("1M")),
            no_local: false,
            default_relay: None,
        },
        theme: s("dark"),
        browse_show_hidden: false,
        browse_show_protected: true,
        exclude_patterns: vec![s("a"), s("b")],
        dnd_mode: s("off"),
        dnd_message: None,
        show_session_stats: false,
        keep_completed_transfers: true,
        security_posture: s("balanced"),
        relay_preference: s("normal"),
        screen_streaming_enabled: true,
        screen_allow_input: false,
        device_nickname: Some(s("nick")),
    }
}

fn form() -> SettingsForm {
    SettingsForm {
        download_dir: s("/new"),
        relay: s(""),
        theme: s("nord"),
        hash: s("md5"),
        curve: s("nonsense"),
        throttle: s(""),
        no_local: true,
    }
}

#[test]
fn settings_are_shown() {
    let shown = show_settings(&config(), Some(s("/bin/croc")), s("host"));
    assert_eq!(shown.download_dir, "/d");
    assert_eq!(shown.default_relay, "");
    assert_eq!((shown.hash_algorithm.as_str(), shown.curve.as_str()), ("xxhash", "siec"));
    assert_eq!(shown.throttle, "1M");
    assert_eq!(shown.browse_exclude_patterns, "a, b");
    assert_eq!((shown.croc_path.as_str(), shown.croc_found), ("/bin/croc", true));
    assert_eq!((shown.device_nickname.as_str(), shown.device_hostname.as_str()), ("nick", "host"));
    assert!(shown.browse_show_protected && !shown.browse_show_hidden);
    assert!(shown.keep_completed_transfers && shown.screen_streaming_enabled);
    assert_eq!(show_croc(None), (s("Not found"), false));
    assert_eq!(croc_status(true), "Croc found!");
    assert_eq!(croc_status(false), "Croc not found");
}

#[test]
fn forms_are_saved() {
    let mut c = config();
    save_settings(&mut c, form(), false);
    assert_eq!((c.download_dir.as_str(), c.theme.as_str()), ("/new", "nord"));
    assert_eq!(c.croc.default_hash, Some(HashAlgorithm::Md5));
    assert_eq!(c.croc.default_curve, None);
    assert_eq!((c.croc.throttle.clone(), c.croc.default_relay.clone()), (None, None));
    assert!(c.croc.no_local);
    let mut again = config();
    save_settings(&mut again, form(), false);
    save_settings(&mut again, form(), false);
    assert_eq!(again, c);
    let empty = || SettingsForm { download_dir: s(""), ..form() };
    let mut c = config();
    save_settings(&mut c, empty(), true);
    assert_eq!(c.download_dir, "/d");
    save_settings(&mut c, empty(), false);
    assert_eq!(c.download_dir, "");
    assert_eq!(save_status(&None), "Settings saved");
    assert_eq!(save_status(&Some(s("e"))), "Failed to save: e");
}

#[test]
fn saving_what_is_shown_changes_nothing() {
    let shown = show_settings(&config(), None, s("h"));
    let mut c = config();
    save_settings(
        &mut c,
        SettingsForm {
            download_dir: shown.download_dir,
            relay: shown.default_relay,
            theme: shown.theme,
            hash: shown.hash_algorithm,
            curve: shown.curve,
            throttle: shown.throttle,
            no_local: shown.no_local,
        },
        false,
    );
    assert_eq!(c, config());
}

#[test]
fn single_settings_change_alone() {
    let mut c = config();
    save_browse_settings(&mut c, true, false, " x , ,y");
    assert_eq!(c.exclude_patterns, vec!["x", "y"]);
    assert!(c.browse_show_hidden && !c.browse_show_protected);
    set_dnd_mode(&mut c, "busy", "");
    assert_eq!((c.dnd_mode.as_str(), c.dnd_message.clone()), ("busy", None));
    set_dnd_mode(&mut c, "busy", "soon");
    assert_eq!(c.dnd_message, Some(s("soon")));
    set_screen_streaming(&mut c, false, true);
    assert!(!c.screen_streaming_enabled && c.screen_allow_input);
    set_device_nickname(&mut c, "  ");
    assert_eq!(c.device_nickname, None);
    set_device_nickname(&mut c, " n ");
    assert_eq!(c.device_nickname, Some(s(" n ")));
    assert!(toggle_session_stats(&mut c));
    assert!(!toggle_session_stats(&mut c));
    assert!(!toggle_keep_completed_transfers(&mut c));
    assert!(toggle_keep_completed_transfers(&mut c));
    assert_eq!(c.download_dir, "/d");
}

#[test]
fn peers_are_told_of_the_mode() {
    let off = dnd_notice("off", "");
    assert!(!off.enabled && off.message.is_none());
    let busy = dnd_notice("busy", "m");
    assert!(busy.enabled);
    assert_eq!((busy.mode.as_str(), busy.message), ("busy", Some(s("m"))));
}

#[test]
fn this_device_shows_its_endpoint() {
    assert_eq!(show_endpoint("0123456789ab"), Some(s("0123456789ab")));
    assert_eq!(show_endpoint("0123456789abc"), Some(s("012345...789abc")));
    assert_eq!(show_endpoint("01234é6789abc"), None);
    assert_eq!(instance_prefix(&Some(s("one"))), "[one]");
    assert_eq!(instance_prefix(&None), "");
}

#[test]
fn sizes_are_saved_once_they_settle() {
    let second = 1_000_000_000;
    let mut w = SizeSaver::new(800, 600);
    assert!(!w.look(800, 600, 0));
    assert!(!w.look(900, 600, 5 * second));
    assert!(!w.look(901, 600, 10 * second));
    assert!(!w.look(901, 600, 11 * second - 1));
    assert!(w.look(901, 600, 11 * second));
    assert!(w.look(901, 600, 12 * second));
    w.saved(901, 600);
    assert!(!w.look(901, 600, 20 * second));
    assert!(!w.look(800, 600, 25 * second));
    assert!(w.look(800, 600, 30 * second));
    w.saved(800, 600);
    assert!(!w.look(801, 600, 31 * second));
    assert!(!w.look(800, 600, 40 * second));
    assert!(!w.look(800, 600, 50 * second));
}
