use vstd::prelude::*;

use crate::text::clone_text;

verus! {

/// What the tool is asked to do.
#[derive(Clone, Debug)]
pub enum Commands {
    Test,
    Timer,
    Sid,
    List { sid: Option<String> },
    SwitchOn { sid: Option<String>, ain: String },
    SwitchOff { sid: Option<String>, ain: String },
    Power { sid: Option<String>, ain: String },
    Temperature { sid: Option<String>, ain: String },
    Switchstate { sid: Option<String>, ain: String },
}

/// The devices that the box knows.
#[derive(Clone, Debug)]
pub struct DeviceListInfos {
    pub device: Vec<DeviceListeInfosItem>,
}

/// One device that the box knows: its AIN and its product name.
#[derive(Clone, Debug)]
pub struct DeviceListeInfosItem {
    pub identifier: String,
    pub productname: String,
}

/// How a command uses a session with the box: the session id handed to the login (a
/// given one is used as it is) and whether the session is closed afterwards.
pub struct SessionPlan {
    pub sid: Option<String>,
    pub logout: bool,
}

/// The session id that a command hands to the login, where it logs in at all.
pub open spec fn login_sid(command: Commands) -> Option<Option<String>> {
    match command {
        Commands::Test => None,
        Commands::Timer => None,
        Commands::Sid => Some(None),
        Commands::List { sid } => Some(sid),
        Commands::SwitchOn { sid, .. } => Some(sid),
        Commands::SwitchOff { sid, .. } => Some(sid),
        Commands::Power { sid, .. } => Some(sid),
        Commands::Temperature { sid, .. } => Some(sid),
        Commands::Switchstate { sid, .. } => Some(sid),
    }
}

/// How `command` uses a session, `config_sid` being the session id of the settings:
/// `Test` and `Timer` log in nowhere; `Sid` logs in afresh and leaves the session open;
/// a device command logs in with its own `sid` and logs out where the settings name no
/// session.
pub fn session_plan(command: &Commands, config_sid: &Option<String>) -> (r: Option<SessionPlan>)
    ensures
        match login_sid(*command) {
            None => r is None,
            Some(s) => r matches Some(p) && p.sid == s && p.logout == (!(*command is Sid)
                && config_sid is None),
        },
        *command is Test ==> r is None,
        *command is Timer ==> r is None,
        *command is Sid ==> (r matches Some(p) && p.sid is None && !p.logout),
        *command matches Commands::List { sid, .. } ==> (r matches Some(p) && p.sid == sid
            && p.logout == (config_sid is None)),
        *command matches Commands::SwitchOn { sid, .. } ==> (r matches Some(p) && p.sid == sid
            && p.logout == (config_sid is None)),
        *command matches Commands::SwitchOff { sid, .. } ==> (r matches Some(p) && p.sid == sid
            && p.logout == (config_sid is None)),
        *command matches Commands::Power { sid, .. } ==> (r matches Some(p) && p.sid == sid
            && p.logout == (config_sid is None)),
        *command matches Commands::Temperature { sid, .. } ==> (r matches Some(p) && p.sid == sid
            && p.logout == (config_sid is None)),
        *command matches Commands::Switchstate { sid, .. } ==> (r matches Some(p) && p.sid == sid
            && p.logout == (config_sid is None)),
{
    let device_logout = config_sid.is_none();
    match command {
        Commands::Test => None,
        Commands::Timer => None,
        Commands::Sid => Some(SessionPlan { sid: None, logout: false }),
        Commands::List { sid } => Some(SessionPlan { sid: clone_text(sid), logout: device_logout }),
        Commands::SwitchOn { sid, .. } => Some(
            SessionPlan { sid: clone_text(sid), logout: device_logout },
        ),
        Commands::SwitchOff { sid, .. } => Some(
            SessionPlan { sid: clone_text(sid), logout: device_logout },
        ),
        Commands::Power { sid, .. } => Some(SessionPlan { sid: clone_text(sid), logout: device_logout }),
        Commands::Temperature { sid, .. } => Some(
            SessionPlan { sid: clone_text(sid), logout: device_logout },
        ),
        Commands::Switchstate { sid, .. } => Some(
            SessionPlan { sid: clone_text(sid), logout: device_logout },
        ),
    }
}

/// Each device command hands its own session id to the login, whatever its device;
/// `Sid` always logs in afresh, and `Test` and `Timer` do not log in.
pub proof fn device_commands_hand_over_their_sid(sid: Option<String>, ain: String)
    ensures
        login_sid(Commands::List { sid }) == Some(sid),
        login_sid(Commands::SwitchOn { sid, ain }) == Some(sid),
        login_sid(Commands::SwitchOff { sid, ain }) == Some(sid),
        login_sid(Commands::Power { sid, ain }) == Some(sid),
        login_sid(Commands::Temperature { sid, ain }) == Some(sid),
        login_sid(Commands::Switchstate { sid, ain }) == Some(sid),
        login_sid(Commands::Sid) == Some(None::<String>),
        login_sid(Commands::Test) is None,
        login_sid(Commands::Timer) is None,
{
}

} // verus!
