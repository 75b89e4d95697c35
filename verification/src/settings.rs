//! Settings: what the user can set, how it is read from forms, and how it is shown.

use vstd::prelude::*;

use crate::croc::{
    curve_text, hash_text, parse_curve, parse_hash, parsed_curve, parsed_hash, show_curve,
    show_hash, CrocConfig,
};
use crate::text::{
    blank, is_shortenable, join2, join3, join_texts, joined, list_entries, lists_survive_display,
    non_blank, opt_text, or_blank, parse_list, same_text, shorten, shortened, some_unless_blank,
    text_or_blank, texts, trim_text, trimmed,
};

verus! {

/// The settings.
#[derive(Debug, PartialEq, Eq)]
pub struct Config<T = String, L = Vec<String>> {
    pub download_dir: T,
    /// Transfers by code.
    pub croc: CrocConfig<T>,
    /// The theme's name.
    pub theme: T,
    pub browse_show_hidden: bool,
    pub browse_show_protected: bool,
    /// What peers do not get to see.
    pub exclude_patterns: L,
    /// The name of the do-not-disturb mode.
    pub dnd_mode: T,
    pub dnd_message: Option<T>,
    pub show_session_stats: bool,
    pub keep_completed_transfers: bool,
    /// The name of the security posture.
    pub security_posture: T,
    /// The name of the relay preference.
    pub relay_preference: T,
    pub screen_streaming_enabled: bool,
    pub screen_allow_input: bool,
    pub device_nickname: Option<T>,
}

impl View for Config<String, Vec<String>> {
    type V = Config<Seq<char>, Seq<Seq<char>>>;

    open spec fn view(&self) -> Config<Seq<char>, Seq<Seq<char>>> {
        Config {
            download_dir: self.download_dir@,
            croc: self.croc@,
            theme: self.theme@,
            browse_show_hidden: self.browse_show_hidden,
            browse_show_protected: self.browse_show_protected,
            exclude_patterns: texts(self.exclude_patterns@),
            dnd_mode: self.dnd_mode@,
            dnd_message: opt_text(self.dnd_message),
            show_session_stats: self.show_session_stats,
            keep_completed_transfers: self.keep_completed_transfers,
            security_posture: self.security_posture@,
            relay_preference: self.relay_preference@,
            screen_streaming_enabled: self.screen_streaming_enabled,
            screen_allow_input: self.screen_allow_input,
            device_nickname: opt_text(self.device_nickname),
        }
    }
}

/// The settings as they are shown.
#[derive(Debug, PartialEq, Eq)]
pub struct AppSettings<T = String> {
    pub download_dir: T,
    pub default_relay: T,
    pub theme: T,
    pub croc_path: T,
    pub croc_found: bool,
    pub device_nickname: T,
    pub device_hostname: T,
    pub hash_algorithm: T,
    pub curve: T,
    pub throttle: T,
    pub no_local: bool,
    pub browse_show_hidden: bool,
    pub browse_show_protected: bool,
    pub browse_exclude_patterns: T,
    pub dnd_mode: T,
    pub dnd_message: T,
    pub show_session_stats: bool,
    pub keep_completed_transfers: bool,
    pub security_posture: T,
    pub relay_preference: T,
    pub screen_streaming_enabled: bool,
    pub screen_allow_input: bool,
}

impl View for AppSettings<String> {
    type V = AppSettings<Seq<char>>;

    open spec fn view(&self) -> AppSettings<Seq<char>> {
        AppSettings {
            download_dir: self.download_dir@,
            default_relay: self.default_relay@,
            theme: self.theme@,
            croc_path: self.croc_path@,
            croc_found: self.croc_found,
            device_nickname: self.device_nickname@,
            device_hostname: self.device_hostname@,
            hash_algorithm: self.hash_algorithm@,
            curve: self.curve@,
            throttle: self.throttle@,
            no_local: self.no_local,
            browse_show_hidden: self.browse_show_hidden,
            browse_show_protected: self.browse_show_protected,
            browse_exclude_patterns: self.browse_exclude_patterns@,
            dnd_mode: self.dnd_mode@,
            dnd_message: self.dnd_message@,
            show_session_stats: self.show_session_stats,
            keep_completed_transfers: self.keep_completed_transfers,
            security_posture: self.security_posture@,
            relay_preference: self.relay_preference@,
            screen_streaming_enabled: self.screen_streaming_enabled,
            screen_allow_input: self.screen_allow_input,
        }
    }
}

/// How croc shows: by its path, or as not found.
pub open spec fn croc_display(path: Option<Seq<char>>) -> (Seq<char>, bool) {
    match path {
        Some(p) => (p, true),
        None => ("Not found"@, false),
    }
}

/// Shows where croc was found, if it was.
pub fn show_croc(path: Option<String>) -> (r: (String, bool))
    ensures
        (r.0@, r.1) == croc_display(opt_text(path)),
{
    match path {
        Some(p) => (p, true),
        None => ("Not found".to_owned(), false),
    }
}

/// The status line after croc has been looked for.
pub fn croc_status(found: bool) -> (r: String)
    ensures
        r@ == if found {
            "Croc found!"@
        } else {
            "Croc not found"@
        },
{
    if found {
        "Croc found!".to_owned()
    } else {
        "Croc not found".to_owned()
    }
}

/// The settings as they are shown, on a device with a host name and perhaps with croc.
pub open spec fn displayed(
    c: Config<Seq<char>, Seq<Seq<char>>>,
    croc_path: Option<Seq<char>>,
    hostname: Seq<char>,
) -> AppSettings<Seq<char>> {
    AppSettings {
        download_dir: c.download_dir,
        default_relay: text_or_blank(c.croc.default_relay),
        theme: c.theme,
        croc_path: croc_display(croc_path).0,
        croc_found: croc_display(croc_path).1,
        device_nickname: text_or_blank(c.device_nickname),
        device_hostname: hostname,
        hash_algorithm: hash_text(c.croc.default_hash),
        curve: curve_text(c.croc.default_curve),
        throttle: text_or_blank(c.croc.throttle),
        no_local: c.croc.no_local,
        browse_show_hidden: c.browse_show_hidden,
        browse_show_protected: c.browse_show_protected,
        browse_exclude_patterns: joined(c.exclude_patterns, ", "@),
        dnd_mode: c.dnd_mode,
        dnd_message: text_or_blank(c.dnd_message),
        show_session_stats: c.show_session_stats,
        keep_completed_transfers: c.keep_completed_transfers,
        security_posture: c.security_posture,
        relay_preference: c.relay_preference,
        screen_streaming_enabled: c.screen_streaming_enabled,
        screen_allow_input: c.screen_allow_input,
    }
}

/// Shows the settings.
pub fn show_settings(c: &Config, croc_path: Option<String>, hostname: String) -> (r: AppSettings)
    ensures
        r@ == displayed(c@, opt_text(croc_path), hostname@),
{
    let (shown_path, found) = show_croc(croc_path);
    AppSettings {
        download_dir: c.download_dir.clone(),
        default_relay: or_blank(&c.croc.default_relay),
        theme: c.theme.clone(),
        croc_path: shown_path,
        croc_found: found,
        device_nickname: or_blank(&c.device_nickname),
        device_hostname: hostname,
        hash_algorithm: show_hash(c.croc.default_hash),
        curve: show_curve(c.croc.default_curve),
        throttle: or_blank(&c.croc.throttle),
        no_local: c.croc.no_local,
        browse_show_hidden: c.browse_show_hidden,
        browse_show_protected: c.browse_show_protected,
        browse_exclude_patterns: join_texts(&c.exclude_patterns, ", "),
        dnd_mode: c.dnd_mode.clone(),
        dnd_message: or_blank(&c.dnd_message),
        show_session_stats: c.show_session_stats,
        keep_completed_transfers: c.keep_completed_transfers,
        security_posture: c.security_posture.clone(),
        relay_preference: c.relay_preference.clone(),
        screen_streaming_enabled: c.screen_streaming_enabled,
        screen_allow_input: c.screen_allow_input,
    }
}

/// The form of the settings.
#[derive(Debug, PartialEq, Eq)]
pub struct SettingsForm<T = String> {
    pub download_dir: T,
    pub relay: T,
    pub theme: T,
    pub hash: T,
    pub curve: T,
    pub throttle: T,
    pub no_local: bool,
}

impl View for SettingsForm<String> {
    type V = SettingsForm<Seq<char>>;

    open spec fn view(&self) -> SettingsForm<Seq<char>> {
        SettingsForm {
            download_dir: self.download_dir@,
            relay: self.relay@,
            theme: self.theme@,
            hash: self.hash@,
            curve: self.curve@,
            throttle: self.throttle@,
            no_local: self.no_local,
        }
    }
}

/// What a form sets for transfers by code: an empty relay or throttle is none, and so is a hash
/// algorithm or a curve that is not known.
pub open spec fn croc_from(form: SettingsForm<Seq<char>>) -> CrocConfig<Seq<char>> {
    CrocConfig {
        default_hash: parsed_hash(form.hash),
        default_curve: parsed_curve(form.curve),
        throttle: non_blank(form.throttle),
        no_local: form.no_local,
        default_relay: non_blank(form.relay),
    }
}

/// The settings with a form's in their place. Saved without being asked to, a form without a
/// download directory leaves that as it is.
pub open spec fn saved(
    c: Config<Seq<char>, Seq<Seq<char>>>,
    form: SettingsForm<Seq<char>>,
    unasked: bool,
) -> Config<Seq<char>, Seq<Seq<char>>> {
    Config {
        download_dir: if unasked && form.download_dir.len() == 0 {
            c.download_dir
        } else {
            form.download_dir
        },
        croc: croc_from(form),
        theme: form.theme,
        ..c
    }
}

/// Takes over a form. `unasked` is set where the form is saved by itself after a change.
pub fn save_settings(c: &mut Config, form: SettingsForm, unasked: bool)
    ensures
        final(c)@ == saved(old(c)@, form@, unasked),
{
    if !unasked || !form.download_dir.as_str().is_empty() {
        c.download_dir = form.download_dir;
    }
    c.croc = CrocConfig {
        default_hash: parse_hash(form.hash.as_str()),
        default_curve: parse_curve(form.curve.as_str()),
        throttle: some_unless_blank(form.throttle.as_str()),
        no_local: form.no_local,
        default_relay: some_unless_blank(form.relay.as_str()),
    };
    c.theme = form.theme;
}

/// The status line after the settings were written, or could not be.
pub fn save_status(error: &Option<String>) -> (r: String)
    ensures
        r@ == (match opt_text(*error) {
            Some(e) => "Failed to save: "@ + e,
            None => "Settings saved"@,
        }),
{
    match error {
        Some(e) => join2("Failed to save: ", e.as_str()),
        None => "Settings saved".to_owned(),
    }
}

/// A configuration with other settings for browsing.
pub open spec fn with_browsing(
    c: Config<Seq<char>, Seq<Seq<char>>>,
    show_hidden: bool,
    show_protected: bool,
    exclude_patterns: Seq<char>,
) -> Config<Seq<char>, Seq<Seq<char>>> {
    Config {
        browse_show_hidden: show_hidden,
        browse_show_protected: show_protected,
        exclude_patterns: list_entries(exclude_patterns),
        ..c
    }
}

/// Sets what peers get to see of this device's files.
pub fn save_browse_settings(
    c: &mut Config,
    show_hidden: bool,
    show_protected: bool,
    exclude_patterns: &str,
)
    ensures
        final(c)@ == with_browsing(old(c)@, show_hidden, show_protected, exclude_patterns@),
{
    c.browse_show_hidden = show_hidden;
    c.browse_show_protected = show_protected;
    c.exclude_patterns = parse_list(exclude_patterns);
}

/// A configuration with another do-not-disturb mode.
pub open spec fn with_dnd(
    c: Config<Seq<char>, Seq<Seq<char>>>,
    mode: Seq<char>,
    message: Seq<char>,
) -> Config<Seq<char>, Seq<Seq<char>>> {
    Config { dnd_mode: mode, dnd_message: non_blank(message), ..c }
}

/// Sets the do-not-disturb mode.
pub fn set_dnd_mode(c: &mut Config, mode: &str, message: &str)
    ensures
        final(c)@ == with_dnd(old(c)@, mode@, message@),
{
    c.dnd_mode = mode.to_owned();
    c.dnd_message = some_unless_blank(message);
}

/// What peers are told of the do-not-disturb mode.
#[derive(Debug, PartialEq, Eq)]
pub struct DndNotice<T = String> {
    pub enabled: bool,
    pub mode: T,
    pub message: Option<T>,
}

impl View for DndNotice<String> {
    type V = DndNotice<Seq<char>>;

    open spec fn view(&self) -> DndNotice<Seq<char>> {
        DndNotice { enabled: self.enabled, mode: self.mode@, message: opt_text(self.message) }
    }
}

/// What peers are told of the do-not-disturb mode.
pub fn dnd_notice(mode: &str, message: &str) -> (r: DndNotice)
    ensures
        r@ == (DndNotice {
            enabled: mode@ != "off"@,
            mode: mode@,
            message: non_blank(message@),
        }),
{
    DndNotice {
        enabled: !same_text(mode, "off"),
        mode: mode.to_owned(),
        message: some_unless_blank(message),
    }
}

/// A configuration with other settings for the screen.
pub open spec fn with_streaming(
    c: Config<Seq<char>, Seq<Seq<char>>>,
    enabled: bool,
    allow_input: bool,
) -> Config<Seq<char>, Seq<Seq<char>>> {
    Config { screen_streaming_enabled: enabled, screen_allow_input: allow_input, ..c }
}

/// Sets whether this device streams its screen, and whether it takes input.
pub fn set_screen_streaming(c: &mut Config, enabled: bool, allow_input: bool)
    ensures
        final(c)@ == with_streaming(old(c)@, enabled, allow_input),
{
    c.screen_streaming_enabled = enabled;
    c.screen_allow_input = allow_input;
}

/// The nickname that a text gives: the text as it is, unless it is nothing but white space.
pub open spec fn nickname(s: Seq<char>) -> Option<Seq<char>> {
    if trimmed(s).len() == 0 {
        None
    } else {
        Some(s)
    }
}

/// A configuration with another nickname.
pub open spec fn with_nickname(
    c: Config<Seq<char>, Seq<Seq<char>>>,
    name: Seq<char>,
) -> Config<Seq<char>, Seq<Seq<char>>> {
    Config { device_nickname: nickname(name), ..c }
}

/// Sets the nickname of this device.
pub fn set_device_nickname(c: &mut Config, name: &str)
    ensures
        final(c)@ == with_nickname(old(c)@, name@),
{
    c.device_nickname = if trim_text(name).as_str().is_empty() {
        None
    } else {
        Some(name.to_owned())
    };
}

/// A configuration with the statistics of the session turned on or off.
pub open spec fn with_stats_turned(c: Config<Seq<char>, Seq<Seq<char>>>) -> Config<
    Seq<char>,
    Seq<Seq<char>>,
> {
    Config { show_session_stats: !c.show_session_stats, ..c }
}

/// A configuration with the keeping of completed transfers turned on or off.
pub open spec fn with_keeping_turned(c: Config<Seq<char>, Seq<Seq<char>>>) -> Config<
    Seq<char>,
    Seq<Seq<char>>,
> {
    Config { keep_completed_transfers: !c.keep_completed_transfers, ..c }
}

/// Turns the statistics of the session on or off, and says which.
pub fn toggle_session_stats(c: &mut Config) -> (r: bool)
    ensures
        final(c)@ == with_stats_turned(old(c)@),
        r == !old(c)@.show_session_stats,
{
    c.show_session_stats = !c.show_session_stats;
    c.show_session_stats
}

/// Turns the keeping of completed transfers on or off, and says which.
pub fn toggle_keep_completed_transfers(c: &mut Config) -> (r: bool)
    ensures
        final(c)@ == with_keeping_turned(old(c)@),
        r == !old(c)@.keep_completed_transfers,
{
    c.keep_completed_transfers = !c.keep_completed_transfers;
    c.keep_completed_transfers
}

/// What each line of the log begins with: the name of this instance, where it has one.
pub fn instance_prefix(name: &Option<String>) -> (r: String)
    ensures
        r@ == (match opt_text(*name) {
            Some(n) => "["@ + n + "]"@,
            None => blank(),
        }),
{
    match name {
        Some(n) => join3("[", n.as_str(), "]"),
        None => String::new(),
    }
}

/// How this device's own endpoint shows.
pub fn show_endpoint(endpoint_id: &str) -> (r: Option<String>)
    ensures
        r is Some <==> crate::text::can_shorten(endpoint_id@, 12, 6),
        r matches Some(s) ==> s@ == shortened(endpoint_id@, 12, 6),
{
    if is_shortenable(endpoint_id, 12, 6) {
        Some(shorten(endpoint_id, 12, 6))
    } else {
        None
    }
}

// ---------------------------------------------------------------------------
// Laws

/// The form that shows a configuration's settings.
pub open spec fn form_of(s: AppSettings<Seq<char>>) -> SettingsForm<Seq<char>> {
    SettingsForm {
        download_dir: s.download_dir,
        relay: s.default_relay,
        theme: s.theme,
        hash: s.hash_algorithm,
        curve: s.curve,
        throttle: s.throttle,
        no_local: s.no_local,
    }
}

/// Settings that are shown and saved again unchanged stay as they are, provided that no setting
/// holds an empty text in place of none.
pub proof fn saving_what_is_shown_changes_nothing(
    c: Config<Seq<char>, Seq<Seq<char>>>,
    croc_path: Option<Seq<char>>,
    hostname: Seq<char>,
    unasked: bool,
)
    requires
        c.croc.throttle matches Some(t) ==> t.len() > 0,
        c.croc.default_relay matches Some(r) ==> r.len() > 0,
    ensures
        saved(c, form_of(displayed(c, croc_path, hostname)), unasked) == c,
{
    crate::croc::choices_survive_display(c.croc.default_hash, c.croc.default_curve);
}

/// Patterns that are shown and saved again stay as they are.
pub proof fn patterns_survive_display(s: Seq<char>)
    ensures
        list_entries(joined(list_entries(s), ", "@)) == list_entries(s),
{
    lists_survive_display(s);
}

/// A form that is saved twice is saved as once.
pub proof fn saving_twice_is_saving_once(
    c: Config<Seq<char>, Seq<Seq<char>>>,
    form: SettingsForm<Seq<char>>,
    unasked: bool,
)
    ensures
        saved(saved(c, form, unasked), form, unasked) == saved(c, form, unasked),
{
}

/// The settings show as they are: each text, switch and name at its own place, what is not set as
/// the empty text, and the patterns in one row.
pub proof fn settings_show_as_they_are(
    c: Config,
    croc_path: Option<String>,
    hostname: &str,
    r: AppSettings,
)
    requires
        r@ == displayed(c@, opt_text(croc_path), hostname@),
    ensures
        r.download_dir@ == c.download_dir@,
        r.theme@ == c.theme@,
        r.device_hostname@ == hostname@,
        r.dnd_mode@ == c.dnd_mode@,
        r.security_posture@ == c.security_posture@,
        r.relay_preference@ == c.relay_preference@,
        r.no_local == c.croc.no_local,
        r.browse_show_hidden == c.browse_show_hidden,
        r.browse_show_protected == c.browse_show_protected,
        r.show_session_stats == c.show_session_stats,
        r.keep_completed_transfers == c.keep_completed_transfers,
        r.screen_streaming_enabled == c.screen_streaming_enabled,
        r.screen_allow_input == c.screen_allow_input,
        r.browse_exclude_patterns@ == joined(texts(c.exclude_patterns@), ", "@),
        croc_path matches Some(p) ==> r.croc_path@ == p@ && r.croc_found,
        croc_path is None ==> r.croc_path@ == "Not found"@ && !r.croc_found,
        c.croc.default_relay matches Some(t) ==> r.default_relay@ == t@,
        c.croc.default_relay is None ==> r.default_relay@.len() == 0,
        c.croc.throttle matches Some(t) ==> r.throttle@ == t@,
        c.croc.throttle is None ==> r.throttle@.len() == 0,
        c.dnd_message matches Some(t) ==> r.dnd_message@ == t@,
        c.dnd_message is None ==> r.dnd_message@.len() == 0,
        c.device_nickname matches Some(t) ==> r.device_nickname@ == t@,
        c.device_nickname is None ==> r.device_nickname@.len() == 0,
        parsed_hash(r.hash_algorithm@) == c.croc.default_hash,
        parsed_curve(r.curve@) == c.croc.default_curve,
{
    crate::croc::choices_survive_display(c.croc.default_hash, c.croc.default_curve);
}

/// A form that is saved sets what it holds, and what it does not hold stays as it is; an empty
/// relay or throttle is none. Only a form that was saved unasked leaves the download directory alone
/// where it has none.
pub proof fn forms_set_what_they_hold(
    before: Config,
    form: SettingsForm,
    unasked: bool,
    after: Config,
)
    requires
        after@ == saved(before@, form@, unasked),
    ensures
        after.theme@ == form.theme@,
        after.croc.no_local == form.no_local,
        after.croc.default_hash == parsed_hash(form.hash@),
        after.croc.default_curve == parsed_curve(form.curve@),
        form.relay@.len() > 0 ==> (after.croc.default_relay matches Some(t) && t@ == form.relay@),
        form.relay@.len() == 0 ==> after.croc.default_relay is None,
        form.throttle@.len() > 0 ==> (after.croc.throttle matches Some(t) && t@ == form.throttle@),
        form.throttle@.len() == 0 ==> after.croc.throttle is None,
        form.download_dir@.len() > 0 || !unasked ==> after.download_dir@ == form.download_dir@,
        form.download_dir@.len() == 0 && unasked ==> after.download_dir@ == before.download_dir@,
        after.browse_show_hidden == before.browse_show_hidden,
        after.browse_show_protected == before.browse_show_protected,
        texts(after.exclude_patterns@) == texts(before.exclude_patterns@),
        after.dnd_mode@ == before.dnd_mode@,
        opt_text(after.dnd_message) == opt_text(before.dnd_message),
        after.show_session_stats == before.show_session_stats,
        after.keep_completed_transfers == before.keep_completed_transfers,
        after.security_posture@ == before.security_posture@,
        after.relay_preference@ == before.relay_preference@,
        after.screen_streaming_enabled == before.screen_streaming_enabled,
        after.screen_allow_input == before.screen_allow_input,
        opt_text(after.device_nickname) == opt_text(before.device_nickname),
{
}

/// A nickname is taken as it was entered, white space and all, unless it is nothing else.
pub proof fn nicknames_are_taken_as_entered(s: Seq<char>)
    ensures
        (exists|i: int| 0 <= i < s.len() && !crate::text::is_space_char(#[trigger] s[i])) ==> nickname(
            s,
        ) == Some(s),
        (forall|i: int| 0 <= i < s.len() ==> crate::text::is_space_char(#[trigger] s[i])) ==> nickname(
            s,
        ) is None,
{
    let cut = crate::text::trimming_takes_white_space_only(s);
    let t = trimmed(s);
    if t.len() > 0 {
        assert(t[0] == s[cut.0]);
    }
}

/// What peers see when they browse is set as the user has chosen, and nothing else changes.
pub proof fn browsing_is_set_as_chosen(
    before: Config,
    show_hidden: bool,
    show_protected: bool,
    exclude_patterns: &str,
    after: Config,
)
    requires
        after@ == with_browsing(before@, show_hidden, show_protected, exclude_patterns@),
    ensures
        after.browse_show_hidden == show_hidden,
        after.browse_show_protected == show_protected,
        texts(after.exclude_patterns@) == list_entries(exclude_patterns@),
        before@ == (Config {
            browse_show_hidden: before@.browse_show_hidden,
            browse_show_protected: before@.browse_show_protected,
            exclude_patterns: before@.exclude_patterns,
            ..after@
        }),
{
}

/// The mode is set and told to peers as the user has chosen it, with its message unless that is
/// empty. Any mode but "off" counts as on. Nothing else changes.
pub proof fn disturbances_are_set_as_chosen(
    before: Config,
    mode: &str,
    message: &str,
    after: Config,
    notice: DndNotice,
)
    requires
        after@ == with_dnd(before@, mode@, message@),
    ensures
        after.dnd_mode@ == mode@,
        message@.len() > 0 ==> (after.dnd_message matches Some(m) && m@ == message@),
        message@.len() == 0 ==> after.dnd_message is None,
        before@ == (Config {
            dnd_mode: before@.dnd_mode,
            dnd_message: before@.dnd_message,
            ..after@
        }),
        call_ensures(dnd_notice, (mode, message), notice) ==> {
            &&& notice.enabled <==> mode@ != "off"@
            &&& notice.mode@ == mode@
            &&& message@.len() > 0 ==> (notice.message matches Some(m) && m@ == message@)
            &&& message@.len() == 0 ==> notice.message is None
        },
{
}

/// The switches of the screen are set as the user has chosen, the other switches are turned over, and
/// the nickname is the one that was entered. Nothing else changes.
pub proof fn switches_are_set_as_chosen(
    c: Config<Seq<char>, Seq<Seq<char>>>,
    enabled: bool,
    allow_input: bool,
    name: Seq<char>,
)
    ensures
        with_streaming(c, enabled, allow_input).screen_streaming_enabled == enabled,
        with_streaming(c, enabled, allow_input).screen_allow_input == allow_input,
        c == (Config {
            screen_streaming_enabled: c.screen_streaming_enabled,
            screen_allow_input: c.screen_allow_input,
            ..with_streaming(c, enabled, allow_input)
        }),
        with_nickname(c, name).device_nickname == nickname(name),
        c == (Config { device_nickname: c.device_nickname, ..with_nickname(c, name) }),
        with_stats_turned(c).show_session_stats != c.show_session_stats,
        with_stats_turned(with_stats_turned(c)) == c,
        c == (Config { show_session_stats: c.show_session_stats, ..with_stats_turned(c) }),
        with_keeping_turned(c).keep_completed_transfers != c.keep_completed_transfers,
        with_keeping_turned(with_keeping_turned(c)) == c,
        c == (Config {
            keep_completed_transfers: c.keep_completed_transfers,
            ..with_keeping_turned(c)
        }),
{
}

/// What has come of saving and of looking for croc is told, an instance is named in brackets, and the
/// endpoint shows with six characters from either end where it is longer than twelve.
pub proof fn settings_are_told(
    found: bool,
    error: &Option<String>,
    endpoint_id: &str,
    line: String,
    shown: Option<String>,
)
    ensures
        call_ensures(croc_status, (found,), line) ==> line@ == if found {
            "Croc found!"@
        } else {
            "Croc not found"@
        },
        call_ensures(save_status, (error,), line) ==> line@ == match *error {
            Some(e) => "Failed to save: "@ + e@,
            None => "Settings saved"@,
        },
        call_ensures(instance_prefix, (error,), line) ==> match *error {
            Some(n) => line@ == "["@ + n@ + "]"@,
            None => line@.len() == 0,
        },
        call_ensures(show_endpoint, (endpoint_id,), shown) ==> (shown is Some
            <==> crate::text::can_shorten(endpoint_id@, 12, 6)) && (shown matches Some(s) ==> s@
            == shortened(endpoint_id@, 12, 6)),
{
}

} // verus!
