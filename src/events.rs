use vstd::prelude::*;

verus! {

/// Payload of the `version-selected` command.
#[derive(Debug)]
pub struct VersionSelectedPayload {
    pub path: String,
    pub version: Option<String>,
}

/// Payload of the `start-firmware-download` command: it carries nothing.
#[derive(Debug)]
pub struct StartFirmwareDownloadPayload {}

/// The commands the shell may send.
#[derive(Clone, Copy, Debug, PartialEq, Eq, Structural)]
pub enum CommandKind {
    StartFirmwareDownload,
    VersionSelected,
    ShowLogs,
    FrontendLoaded,
}

pub open spec fn start_firmware_download_name() -> Seq<char> {
    seq!['s', 't', 'a', 'r', 't', '-', 'f', 'i', 'r', 'm', 'w', 'a', 'r', 'e', '-', 'd', 'o', 'w', 'n', 'l', 'o', 'a', 'd']
}

pub open spec fn version_selected_name() -> Seq<char> {
    seq!['v', 'e', 'r', 's', 'i', 'o', 'n', '-', 's', 'e', 'l', 'e', 'c', 't', 'e', 'd']
}

pub open spec fn show_logs_name() -> Seq<char> {
    seq!['s', 'h', 'o', 'w', '-', 'l', 'o', 'g', 's']
}

pub open spec fn frontend_loaded_name() -> Seq<char> {
    seq!['f', 'r', 'o', 'n', 't', 'e', 'n', 'd', '-', 'l', 'o', 'a', 'd', 'e', 'd']
}

impl CommandKind {
    /// The name under which the shell sends the command.
    pub open spec fn spec_name(self) -> Seq<char> {
        match self {
            CommandKind::StartFirmwareDownload => start_firmware_download_name(),
            CommandKind::VersionSelected => version_selected_name(),
            CommandKind::ShowLogs => show_logs_name(),
            CommandKind::FrontendLoaded => frontend_loaded_name(),
        }
    }

    /// The command carries a `version-selected` payload rather than an empty one.
    pub open spec fn spec_takes_version(self) -> bool {
        self == CommandKind::VersionSelected
    }

    pub fn name(&self) -> (r: &'static str)
        ensures
            r@ == self.spec_name(),
    {
        proof {
            reveal_strlit("start-firmware-download");
            reveal_strlit("version-selected");
            reveal_strlit("show-logs");
            reveal_strlit("frontend-loaded");
        }
        match self {
            CommandKind::StartFirmwareDownload => "start-firmware-download",
            CommandKind::VersionSelected => "version-selected",
            CommandKind::ShowLogs => "show-logs",
            CommandKind::FrontendLoaded => "frontend-loaded",
        }
    }

    /// The command sent under `name`, if any.
    pub fn from_name(name: &str) -> (r: Option<CommandKind>)
        ensures
            r is Some ==> r->Some_0.spec_name() == name@,
            r is None ==> forall|k: CommandKind| k.spec_name() != name@,
    {
        let kinds = [
            CommandKind::StartFirmwareDownload,
            CommandKind::VersionSelected,
            CommandKind::ShowLogs,
            CommandKind::FrontendLoaded,
        ];
        let mut i: usize = 0;
        while i < 4
            invariant
                i <= 4,
                kinds@ == seq![
                    CommandKind::StartFirmwareDownload,
                    CommandKind::VersionSelected,
                    CommandKind::ShowLogs,
                    CommandKind::FrontendLoaded,
                ],
                forall|k: int| 0 <= k < i ==> #[trigger] kinds@[k].spec_name() != name@,
            decreases 4 - i,
        {
            if str_eq(kinds[i].name(), name) {
                return Some(kinds[i]);
            }
            i = i + 1;
        }
        assert forall|k: CommandKind| k.spec_name() != name@ by {
            match k {
                CommandKind::StartFirmwareDownload => assert(kinds@[0] == k),
                CommandKind::VersionSelected => assert(kinds@[1] == k),
                CommandKind::ShowLogs => assert(kinds@[2] == k),
                CommandKind::FrontendLoaded => assert(kinds@[3] == k),
            }
        }
        None
    }
}

/// Whether two strings hold the same characters.
pub fn str_eq(a: &str, b: &str) -> (r: bool)
    ensures
        r == (a@ == b@),
{
    let n = a.unicode_len();
    if n != b.unicode_len() {
        return false;
    }
    let mut i: usize = 0;
    while i < n
        invariant
            n == a@.len(),
            n == b@.len(),
            i <= n,
            forall|k: int| 0 <= k < i ==> a@[k] == b@[k],
        decreases n - i,
    {
        if a.get_char(i) != b.get_char(i) {
            return false;
        }
        i = i + 1;
    }
    assert(a@ == b@);
    true
}

/// Marker for the `version-selected` command.
pub struct VersionSelected;

impl VersionSelected {
    pub fn kind() -> (r: CommandKind)
        ensures
            r == CommandKind::VersionSelected,
    {
        CommandKind::VersionSelected
    }
}

/// Marker for the `frontend-loaded` command.
pub struct FrontendLoaded;

impl FrontendLoaded {
    pub fn kind() -> (r: CommandKind)
        ensures
            r == CommandKind::FrontendLoaded,
    {
        CommandKind::FrontendLoaded
    }
}

/// Marker for the `show-logs` command.
pub struct ShowLogs;

impl ShowLogs {
    pub fn kind() -> (r: CommandKind)
        ensures
            r == CommandKind::ShowLogs,
    {
        CommandKind::ShowLogs
    }
}

/// Marker for the `start-firmware-download` command.
pub struct StartFirmwareDownload;

impl StartFirmwareDownload {
    pub fn kind() -> (r: CommandKind)
        ensures
            r == CommandKind::StartFirmwareDownload,
    {
        CommandKind::StartFirmwareDownload
    }
}

} // verus!
