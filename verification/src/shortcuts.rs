//! Global shortcut actions and their default bindings.
use vstd::prelude::*;
use vstd::string::*;

verus! {

#[derive(Debug, Clone, Copy, PartialEq, Eq, Hash, Structural)]
pub enum ShortcutAction {
    ToggleRecording,
    PauseRecording,
    OpenLauncher,
    ToggleMicrophone,
}

/// The actions in their fixed order.
pub open spec fn action_at(i: int) -> ShortcutAction {
    if i == 0 {
        ShortcutAction::ToggleRecording
    } else if i == 1 {
        ShortcutAction::PauseRecording
    } else if i == 2 {
        ShortcutAction::OpenLauncher
    } else {
        ShortcutAction::ToggleMicrophone
    }
}

pub open spec fn label_text(a: ShortcutAction) -> Seq<char> {
    match a {
        ShortcutAction::ToggleRecording => "Start / stop recording"@,
        ShortcutAction::PauseRecording => "Pause / resume recording"@,
        ShortcutAction::OpenLauncher => "Open launcher"@,
        ShortcutAction::ToggleMicrophone => "Mute / unmute microphone"@,
    }
}

pub open spec fn description_text(a: ShortcutAction) -> Seq<char> {
    match a {
        ShortcutAction::ToggleRecording => "Instantly begin or finalize the current recording session."@,
        ShortcutAction::PauseRecording => "Freeze capture without losing the current session."@,
        ShortcutAction::OpenLauncher => "Bring the command launcher back into focus from anywhere."@,
        ShortcutAction::ToggleMicrophone => "Flip the microphone state while keeping the session alive."@,
    }
}

pub open spec fn accelerator_text(a: ShortcutAction) -> Seq<char> {
    match a {
        ShortcutAction::ToggleRecording => "CmdOrCtrl+Shift+R"@,
        ShortcutAction::PauseRecording => "CmdOrCtrl+Shift+P"@,
        ShortcutAction::OpenLauncher => "CmdOrCtrl+Shift+L"@,
        ShortcutAction::ToggleMicrophone => "CmdOrCtrl+Shift+M"@,
    }
}

impl ShortcutAction {
    pub const ALL: [ShortcutAction; 4] = [
        ShortcutAction::ToggleRecording,
        ShortcutAction::PauseRecording,
        ShortcutAction::OpenLauncher,
        ShortcutAction::ToggleMicrophone,
    ];

    /// The action at position `i` of the fixed order.
    pub fn nth(i: usize) -> (a: ShortcutAction)
        requires
            i < 4,
        ensures
            a == action_at(i as int),
    {
        if i == 0 {
            ShortcutAction::ToggleRecording
        } else if i == 1 {
            ShortcutAction::PauseRecording
        } else if i == 2 {
            ShortcutAction::OpenLauncher
        } else {
            ShortcutAction::ToggleMicrophone
        }
    }

    pub fn label(self) -> (r: &'static str)
        ensures
            r@ == label_text(self),
    {
        match self {
            ShortcutAction::ToggleRecording => "Start / stop recording",
            ShortcutAction::PauseRecording => "Pause / resume recording",
            ShortcutAction::OpenLauncher => "Open launcher",
            ShortcutAction::ToggleMicrophone => "Mute / unmute microphone",
        }
    }

    pub fn description(self) -> (r: &'static str)
        ensures
            r@ == description_text(self),
    {
        match self {
            ShortcutAction::ToggleRecording => "Instantly begin or finalize the current recording session.",
            ShortcutAction::PauseRecording => "Freeze capture without losing the current session.",
            ShortcutAction::OpenLauncher => "Bring the command launcher back into focus from anywhere.",
            ShortcutAction::ToggleMicrophone => "Flip the microphone state while keeping the session alive.",
        }
    }

    pub fn default_accelerator(self) -> (r: &'static str)
        ensures
            r@ == accelerator_text(self),
    {
        match self {
            ShortcutAction::ToggleRecording => "CmdOrCtrl+Shift+R",
            ShortcutAction::PauseRecording => "CmdOrCtrl+Shift+P",
            ShortcutAction::OpenLauncher => "CmdOrCtrl+Shift+L",
            ShortcutAction::ToggleMicrophone => "CmdOrCtrl+Shift+M",
        }
    }
}

#[derive(Debug, Clone, PartialEq, Eq)]
pub struct ShortcutBinding {
    pub action: ShortcutAction,
    pub label: String,
    pub accelerator: String,
    pub enabled: bool,
    pub description: String,
}

pub struct ShortcutBindingView {
    pub action: ShortcutAction,
    pub label: Seq<char>,
    pub accelerator: Seq<char>,
    pub enabled: bool,
    pub description: Seq<char>,
}

impl View for ShortcutBinding {
    type V = ShortcutBindingView;

    open spec fn view(&self) -> ShortcutBindingView {
        ShortcutBindingView {
            action: self.action,
            label: self.label@,
            accelerator: self.accelerator@,
            enabled: self.enabled,
            description: self.description@,
        }
    }
}

pub open spec fn binding_views(v: Seq<ShortcutBinding>) -> Seq<ShortcutBindingView> {
    v.map_values(|b: ShortcutBinding| b@)
}

/// The default binding of an action: enabled, with its own label,
/// description and default accelerator.
pub open spec fn default_binding(a: ShortcutAction) -> ShortcutBindingView {
    ShortcutBindingView {
        action: a,
        label: label_text(a),
        accelerator: accelerator_text(a),
        enabled: true,
        description: description_text(a),
    }
}

/// A copy of a binding.
pub fn copy_binding(b: &ShortcutBinding) -> (r: ShortcutBinding)
    ensures
        r@ == b@,
{
    ShortcutBinding {
        action: b.action,
        label: b.label.clone(),
        accelerator: b.accelerator.clone(),
        enabled: b.enabled,
        description: b.description.clone(),
    }
}

/// A copy of a list of bindings.
pub fn copy_bindings(v: &Vec<ShortcutBinding>) -> (r: Vec<ShortcutBinding>)
    ensures
        binding_views(r@) == binding_views(v@),
{
    let mut r: Vec<ShortcutBinding> = Vec::new();
    let mut i: usize = 0;
    while i < v.len()
        invariant
            i <= v@.len(),
            binding_views(r@) == binding_views(v@.subrange(0, i as int)),
        decreases v@.len() - i,
    {
        let b = copy_binding(&v[i]);
        let ghost old = r@;
        r.push(b);
        assert(binding_views(r@) == binding_views(old).push(b@));
        assert(binding_views(v@.subrange(0, i + 1)) == binding_views(v@.subrange(0, i as int)).push(v@[i as int]@));
        i += 1;
    }
    assert(v@.subrange(0, v@.len() as int) == v@);
    r
}

/// The default binding of one action.
pub fn default_binding_for(action: ShortcutAction) -> (b: ShortcutBinding)
    ensures
        b@ == default_binding(action),
{
    ShortcutBinding {
        action,
        label: String::from_str(action.label()),
        accelerator: String::from_str(action.default_accelerator()),
        enabled: true,
        description: String::from_str(action.description()),
    }
}

/// The default bindings, one per action in the fixed order.
pub fn default_shortcuts() -> (r: Vec<ShortcutBinding>)
    ensures
        r@.len() == 4,
        forall|i: int| 0 <= i < 4 ==> #[trigger] r@[i]@ == default_binding(action_at(i)),
{
    let mut r: Vec<ShortcutBinding> = Vec::new();
    let mut i: usize = 0;
    while i < 4
        invariant
            i <= 4,
            r@.len() == i,
            forall|k: int| 0 <= k < i ==> #[trigger] r@[k]@ == default_binding(action_at(k)),
        decreases 4 - i,
    {
        r.push(default_binding_for(ShortcutAction::nth(i)));
        i += 1;
    }
    r
}

} // verus!
