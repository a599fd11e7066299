//! Persisted settings, configuration paths and shortcut normalization.
use vstd::prelude::*;
use vstd::string::*;
use crate::capture::{DEFAULT_AUDIO_INPUT_ID, FULL_DESKTOP_TARGET_ID};
use crate::shortcuts::{
    action_at, binding_views, copy_binding, default_binding, default_binding_for, ShortcutAction,
    ShortcutBinding, ShortcutBindingView,
};
use crate::text::{chars_of, dec, push_dec, push_str, string_of, trim, trim_chars};

verus! {

#[derive(Debug, Clone, PartialEq, Eq)]
pub struct AppSettings {
    pub output_directory: String,
    pub quality_preset: String,
    pub mic_enabled: bool,
    pub system_audio_enabled: bool,
    pub audio_input_id: String,
    pub wayland_restore_token: Option<String>,
    pub launch_on_login: bool,
    pub show_hud_during_recording: bool,
    pub capture_target_id: String,
    pub region_x: u32,
    pub region_y: u32,
    pub region_width: u32,
    pub region_height: u32,
    pub region_source_capture_target_id: String,
    pub region_source_origin_x: i32,
    pub region_source_origin_y: i32,
    pub region_source_scale_factor_milli: u32,
}

pub struct AppSettingsView {
    pub output_directory: Seq<char>,
    pub quality_preset: Seq<char>,
    pub mic_enabled: bool,
    pub system_audio_enabled: bool,
    pub audio_input_id: Seq<char>,
    pub wayland_restore_token: Option<Seq<char>>,
    pub launch_on_login: bool,
    pub show_hud_during_recording: bool,
    pub capture_target_id: Seq<char>,
    pub region_x: u32,
    pub region_y: u32,
    pub region_width: u32,
    pub region_height: u32,
    pub region_source_capture_target_id: Seq<char>,
    pub region_source_origin_x: i32,
    pub region_source_origin_y: i32,
    pub region_source_scale_factor_milli: u32,
}

impl View for AppSettings {
    type V = AppSettingsView;

    open spec fn view(&self) -> AppSettingsView {
        AppSettingsView {
            output_directory: self.output_directory@,
            quality_preset: self.quality_preset@,
            mic_enabled: self.mic_enabled,
            system_audio_enabled: self.system_audio_enabled,
            audio_input_id: self.audio_input_id@,
            wayland_restore_token: match self.wayland_restore_token {
                Some(t) => Some(t@),
                None => None,
            },
            launch_on_login: self.launch_on_login,
            show_hud_during_recording: self.show_hud_during_recording,
            capture_target_id: self.capture_target_id@,
            region_x: self.region_x,
            region_y: self.region_y,
            region_width: self.region_width,
            region_height: self.region_height,
            region_source_capture_target_id: self.region_source_capture_target_id@,
            region_source_origin_x: self.region_source_origin_x,
            region_source_origin_y: self.region_source_origin_y,
            region_source_scale_factor_milli: self.region_source_scale_factor_milli,
        }
    }
}

/// The settings a fresh installation starts with.
pub open spec fn default_settings() -> AppSettingsView {
    AppSettingsView {
        output_directory: "~/Movies/Record Screen"@,
        quality_preset: "1080p / 30 fps"@,
        mic_enabled: true,
        system_audio_enabled: false,
        audio_input_id: DEFAULT_AUDIO_INPUT_ID@,
        wayland_restore_token: None,
        launch_on_login: false,
        show_hud_during_recording: true,
        capture_target_id: "full-desktop"@,
        region_x: 160,
        region_y: 120,
        region_width: 1280,
        region_height: 720,
        region_source_capture_target_id: FULL_DESKTOP_TARGET_ID@,
        region_source_origin_x: 0,
        region_source_origin_y: 0,
        region_source_scale_factor_milli: 1000,
    }
}

impl Default for AppSettings {
    fn default() -> (r: Self)
        ensures
            r@ == default_settings(),
    {
        AppSettings {
            output_directory: String::from_str("~/Movies/Record Screen"),
            quality_preset: String::from_str("1080p / 30 fps"),
            mic_enabled: true,
            system_audio_enabled: false,
            audio_input_id: String::from_str(DEFAULT_AUDIO_INPUT_ID),
            wayland_restore_token: None,
            launch_on_login: false,
            show_hud_during_recording: true,
            capture_target_id: String::from_str("full-desktop"),
            region_x: 160,
            region_y: 120,
            region_width: 1280,
            region_height: 720,
            region_source_capture_target_id: String::from_str(FULL_DESKTOP_TARGET_ID),
            region_source_origin_x: 0,
            region_source_origin_y: 0,
            region_source_scale_factor_milli: 1000,
        }
    }
}

impl AppSettings {
    /// A copy of these settings.
    pub fn copy(&self) -> (r: AppSettings)
        ensures
            r@ == self@,
    {
        AppSettings {
            output_directory: self.output_directory.clone(),
            quality_preset: self.quality_preset.clone(),
            mic_enabled: self.mic_enabled,
            system_audio_enabled: self.system_audio_enabled,
            audio_input_id: self.audio_input_id.clone(),
            wayland_restore_token: match &self.wayland_restore_token {
                Some(t) => Some(t.clone()),
                None => None,
            },
            launch_on_login: self.launch_on_login,
            show_hud_during_recording: self.show_hud_during_recording,
            capture_target_id: self.capture_target_id.clone(),
            region_x: self.region_x,
            region_y: self.region_y,
            region_width: self.region_width,
            region_height: self.region_height,
            region_source_capture_target_id: self.region_source_capture_target_id.clone(),
            region_source_origin_x: self.region_source_origin_x,
            region_source_origin_y: self.region_source_origin_y,
            region_source_scale_factor_milli: self.region_source_scale_factor_milli,
        }
    }
}

/// The environment variables that settle where configuration lives, as
/// read from the process environment (`None` when unset).
#[derive(Debug, Clone, Default)]
pub struct EnvValues {
    pub xdg_config_home: Option<String>,
    pub appdata: Option<String>,
    pub home: Option<String>,
    pub userprofile: Option<String>,
    pub homedrive: Option<String>,
    pub homepath: Option<String>,
}

/// An environment value, trimmed, or `None` when unset or blank.
pub open spec fn env_value(v: Option<String>) -> Option<Seq<char>> {
    match v {
        Some(s) => if trim(s@).len() > 0 { Some(trim(s@)) } else { None },
        None => None,
    }
}

/// The trimmed value of an environment variable, `None` when unset or blank.
pub fn env_var_string_with(value: &Option<String>) -> (r: Option<String>)
    ensures
        match r {
            Some(s) => env_value(*value) == Some(s@),
            None => env_value(*value) is None,
        },
{
    match value {
        Some(s) => {
            let t = trim_chars(&chars_of(s.as_str()));
            if t.len() > 0 {
                Some(string_of(&t))
            } else {
                None
            }
        },
        None => None,
    }
}

/// `Path::join` on Unix: an absolute `p` replaces `base`; otherwise a
/// separator is put between them unless `base` is empty or already ends
/// with one.
pub open spec fn join_path(base: Seq<char>, p: Seq<char>) -> Seq<char> {
    if p.len() > 0 && p[0] == '/' {
        p
    } else if base.len() == 0 || base.last() == '/' {
        base + p
    } else {
        base + seq!['/'] + p
    }
}

pub fn path_join(base: &str, p: &str) -> (r: String)
    ensures
        r@ == join_path(base@, p@),
{
    let pc = chars_of(p);
    let bc = chars_of(base);
    if pc.len() > 0 && pc[0] == '/' {
        return string_of(&pc);
    }
    let mut r = string_of(&bc);
    if !(bc.len() == 0 || bc[bc.len() - 1] == '/') {
        push_str(&mut r, "/");
        assert("/"@ == seq!['/']) by { reveal_strlit("/"); }
    }
    push_str(&mut r, p);
    r
}

/// The user's home directory: `HOME`, else `USERPROFILE`, else
/// `HOMEDRIVE` followed by `HOMEPATH` when both are set.
pub open spec fn user_home(env: EnvValues) -> Option<Seq<char>> {
    if env_value(env.home) is Some {
        env_value(env.home)
    } else if env_value(env.userprofile) is Some {
        env_value(env.userprofile)
    } else if env_value(env.homedrive) is Some && env_value(env.homepath) is Some {
        Some(env_value(env.homedrive)->0 + env_value(env.homepath)->0)
    } else {
        None
    }
}

pub fn user_home_directory_with(env: &EnvValues) -> (r: Option<String>)
    ensures
        match r {
            Some(s) => user_home(*env) == Some(s@),
            None => user_home(*env) is None,
        },
{
    if let Some(home) = env_var_string_with(&env.home) {
        return Some(home);
    }
    if let Some(profile) = env_var_string_with(&env.userprofile) {
        return Some(profile);
    }
    match (env_var_string_with(&env.homedrive), env_var_string_with(&env.homepath)) {
        (Some(drive), Some(path)) => {
            let mut r = drive;
            push_str(&mut r, path.as_str());
            Some(r)
        },
        _ => None,
    }
}

/// Where the app keeps its configuration.
pub open spec fn config_directory(env: EnvValues) -> Seq<char> {
    if env_value(env.xdg_config_home) is Some {
        join_path(env_value(env.xdg_config_home)->0, "record-screen"@)
    } else if env_value(env.appdata) is Some {
        join_path(env_value(env.appdata)->0, "record-screen"@)
    } else if user_home(env) is Some {
        join_path(user_home(env)->0, ".config/record-screen"@)
    } else {
        ".record-screen"@
    }
}

/// The configuration directory for the given environment.
pub fn app_config_directory(env: &EnvValues) -> (r: String)
    ensures
        r@ == config_directory(*env),
{
    if let Some(config_home) = env_var_string_with(&env.xdg_config_home) {
        return path_join(config_home.as_str(), "record-screen");
    }
    if let Some(app_data) = env_var_string_with(&env.appdata) {
        return path_join(app_data.as_str(), "record-screen");
    }
    if let Some(home) = user_home_directory_with(env) {
        return path_join(home.as_str(), ".config/record-screen");
    }
    String::from_str(".record-screen")
}

/// The settings file for the given environment.
pub fn app_settings_path(env: &EnvValues) -> (r: String)
    ensures
        r@ == join_path(config_directory(*env), "settings.json"@),
{
    let dir = app_config_directory(env);
    path_join(dir.as_str(), "settings.json")
}

/// The shortcuts file for the given environment.
pub fn shortcuts_path(env: &EnvValues) -> (r: String)
    ensures
        r@ == join_path(config_directory(*env), "shortcuts.json"@),
{
    let dir = app_config_directory(env);
    path_join(dir.as_str(), "shortcuts.json")
}

/// Without `XDG_CONFIG_HOME` or `APPDATA`, the configuration lives in
/// `.config/record-screen` under the home directory, and the settings and
/// shortcuts files in that folder.
pub proof fn law_home_config_location(env: EnvValues, h: Seq<char>)
    requires
        env_value(env.xdg_config_home) is None,
        env_value(env.appdata) is None,
        user_home(env) == Some(h),
    ensures
        h.len() > 0,
        h.last() != '/' ==> config_directory(env) == h + "/.config/record-screen"@,
        h.last() == '/' ==> config_directory(env) == h + ".config/record-screen"@,
        h.last() != '/' ==> join_path(config_directory(env), "settings.json"@)
            == h + "/.config/record-screen/settings.json"@,
        h.last() != '/' ==> join_path(config_directory(env), "shortcuts.json"@)
            == h + "/.config/record-screen/shortcuts.json"@,
{
    reveal_strlit(".config/record-screen");
    reveal_strlit("/.config/record-screen");
    reveal_strlit("settings.json");
    reveal_strlit("shortcuts.json");
    reveal_strlit("/.config/record-screen/settings.json");
    reveal_strlit("/.config/record-screen/shortcuts.json");
    let dir = ".config/record-screen"@;
    assert(dir.len() > 0 && dir[0] != '/');
    if h.last() != '/' {
        let c = config_directory(env);
        assert(c == h + seq!['/'] + dir);
        assert(c =~= h + "/.config/record-screen"@);
        assert(c.len() > 0 && c.last() == 'n');
        assert(join_path(c, "settings.json"@) =~= h + "/.config/record-screen/settings.json"@);
        assert(join_path(c, "shortcuts.json"@) =~= h + "/.config/record-screen/shortcuts.json"@);
    }
}

/// `input` with a leading `~/` replaced by the home directory when one is known.
pub open spec fn expanded_home_path(input: Seq<char>, env: EnvValues) -> Seq<char> {
    if input.len() >= 2 && input[0] == '~' && input[1] == '/' && user_home(env) is Some {
        join_path(user_home(env)->0, input.subrange(2, input.len() as int))
    } else {
        input
    }
}

pub fn expand_home_path(input: &str, env: &EnvValues) -> (r: String)
    ensures
        r@ == expanded_home_path(input@, *env),
{
    let c = chars_of(input);
    if c.len() >= 2 && c[0] == '~' && c[1] == '/' {
        if let Some(home) = user_home_directory_with(env) {
            let rest = string_of(&crate::text::slice_chars(&c, 2, c.len()));
            return path_join(home.as_str(), rest.as_str());
        }
    }
    String::from_str(input)
}

/// The file a new recording is written to, named after the number of
/// seconds since the Unix epoch.
pub fn next_recording_path(directory: &str, timestamp_secs: u64) -> (r: String)
    ensures
        r@ == join_path(directory@, "recording-"@ + dec(timestamp_secs as nat) + ".mp4"@),
{
    let mut name = String::from_str("recording-");
    push_dec(&mut name, timestamp_secs);
    push_str(&mut name, ".mp4");
    path_join(directory, name.as_str())
}

/// Index of the first binding for `a`, or -1.
pub open spec fn first_binding_for(v: Seq<ShortcutBindingView>, a: ShortcutAction) -> int
    decreases v.len(),
{
    if v.len() == 0 {
        -1
    } else if first_binding_for(v.drop_last(), a) != -1 {
        first_binding_for(v.drop_last(), a)
    } else if v.last().action == a {
        v.len() - 1
    } else {
        -1
    }
}

/// For each action, the first stored binding for it, else its default.
pub open spec fn normalized_binding(v: Seq<ShortcutBindingView>, a: ShortcutAction) -> ShortcutBindingView {
    if first_binding_for(v, a) != -1 {
        v[first_binding_for(v, a)]
    } else {
        default_binding(a)
    }
}

pub proof fn lemma_first_binding_for(v: Seq<ShortcutBindingView>, a: ShortcutAction)
    ensures
        -1 <= first_binding_for(v, a) < v.len(),
        first_binding_for(v, a) != -1 ==> v[first_binding_for(v, a)].action == a,
    decreases v.len(),
{
    if v.len() > 0 {
        lemma_first_binding_for(v.drop_last(), a);
    }
}

fn binding_for(shortcuts: &Vec<ShortcutBinding>, action: ShortcutAction) -> (r: ShortcutBinding)
    ensures
        r@ == normalized_binding(binding_views(shortcuts@), action),
{
    let ghost all = binding_views(shortcuts@);
    let mut i: usize = 0;
    while i < shortcuts.len()
        invariant
            i <= shortcuts@.len(),
            all == binding_views(shortcuts@),
            first_binding_for(all.subrange(0, i as int), action) == -1,
        decreases shortcuts@.len() - i,
    {
        assert(all.subrange(0, i + 1).drop_last() == all.subrange(0, i as int));
        if shortcuts[i].action == action {
            proof { lemma_binding_prefix(all, action, i as int, i + 1); }
            return copy_binding(&shortcuts[i]);
        }
        i += 1;
    }
    assert(all.subrange(0, i as int) == all);
    default_binding_for(action)
}

pub proof fn lemma_binding_prefix(v: Seq<ShortcutBindingView>, a: ShortcutAction, i: int, n: int)
    requires
        0 <= i < n <= v.len(),
        first_binding_for(v.subrange(0, n), a) == i,
    ensures
        first_binding_for(v, a) == i,
    decreases v.len() - n,
{
    if n < v.len() {
        assert(v.subrange(0, n + 1).drop_last() == v.subrange(0, n));
        lemma_binding_prefix(v, a, i, n + 1);
    } else {
        assert(v.subrange(0, n) == v);
    }
}

/// Stored bindings completed to one per action, in the fixed order: the
/// first stored binding of an action wins, missing actions get defaults.
pub fn normalize_shortcuts(shortcuts: &Vec<ShortcutBinding>) -> (r: Vec<ShortcutBinding>)
    ensures
        r@.len() == 4,
        forall|i: int| 0 <= i < 4 ==> #[trigger] r@[i]@ == normalized_binding(binding_views(shortcuts@), action_at(i)),
{
    let mut r: Vec<ShortcutBinding> = Vec::new();
    let mut i: usize = 0;
    while i < 4
        invariant
            i <= 4,
            r@.len() == i,
            forall|k: int| 0 <= k < i ==> #[trigger] r@[k]@ == normalized_binding(binding_views(shortcuts@), action_at(k)),
        decreases 4 - i,
    {
        r.push(binding_for(shortcuts, ShortcutAction::nth(i)));
        i += 1;
    }
    r
}

/// The bindings normalization yields, one per action in the fixed order.
pub open spec fn normalized_list(v: Seq<ShortcutBindingView>) -> Seq<ShortcutBindingView> {
    Seq::new(4, |i: int| normalized_binding(v, action_at(i)))
}

proof fn lemma_first_binding_at(w: Seq<ShortcutBindingView>, a: ShortcutAction, i: int)
    requires
        0 <= i < w.len(),
        w[i].action == a,
        forall|j: int| 0 <= j < i ==> w[j].action != a,
    ensures
        first_binding_for(w, a) == i,
    decreases w.len(),
{
    if w.len() == i + 1 {
        lemma_first_binding_for(w.drop_last(), a);
        if first_binding_for(w.drop_last(), a) != -1 {
            let k = first_binding_for(w.drop_last(), a);
            assert(w.drop_last()[k] == w[k]);
        }
    } else {
        assert forall|j: int| 0 <= j < i implies w.drop_last()[j].action != a by {
            assert(w.drop_last()[j] == w[j]);
        }
        assert(w.drop_last()[i] == w[i]);
        lemma_first_binding_at(w.drop_last(), a, i);
    }
}

/// Normalizing stored shortcuts twice gives what normalizing once gave:
/// a normalized list holds each action once, in place.
pub proof fn law_normalize_idempotent(v: Seq<ShortcutBindingView>)
    ensures
        normalized_list(normalized_list(v)) == normalized_list(v),
{
    let w = normalized_list(v);
    assert forall|i: int| 0 <= i < 4 implies #[trigger] w[i].action == action_at(i) by {
        lemma_first_binding_for(v, action_at(i));
    }
    assert forall|i: int| 0 <= i < 4 implies normalized_binding(w, action_at(i)) == w[i] by {
        assert forall|j: int| 0 <= j < i implies w[j].action != action_at(i) by {
            assert(w[j].action == action_at(j));
        }
        lemma_first_binding_at(w, action_at(i), i);
    }
    assert(normalized_list(w) =~= w);
}

} // verus!
