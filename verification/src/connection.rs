//! Connection manager: which of the two connection modes is used, and which
//! input port a name selects.
//!
//! A connection is made in exactly one of two modes: to a named port that the
//! MIDI subsystem lists, or through a virtual port that this process creates.
//! The decisions are made here; the ports are listed and opened by the
//! program.

use vstd::prelude::*;
use vstd::string::*;

verus! {

/// How the MIDI input connection is made.
#[derive(Clone, Copy, Debug, PartialEq, Eq, Structural)]
pub enum ConnectionMode {
    /// Connect to an existing input port, chosen by its name.
    Loopback,
    /// Create a virtual port that other applications can send to.
    Virtual,
}

/// Why the bridge cannot start.
#[derive(Clone, Copy, Debug, PartialEq, Eq, Structural)]
pub enum StartupError {
    /// The connection mode is neither `loopback` nor `virtual`.
    InvalidMode,
    /// No listed input port has the chosen name.
    UnknownPort,
    /// Virtual ports do not exist on this platform.
    PlatformUnsupported,
}

impl StartupError {
    /// The text of each error.
    pub open spec fn message_text(self) -> Seq<char> {
        match self {
            StartupError::InvalidMode => "invalid user input"@,
            StartupError::UnknownPort => "unknown port"@,
            StartupError::PlatformUnsupported => "poorly made os"@,
        }
    }

    /// The diagnostic with which the program ends on this error.
    pub fn message(&self) -> (text: &'static str)
        ensures
            text@ == self.message_text(),
    {
        match self {
            StartupError::InvalidMode => "invalid user input",
            StartupError::UnknownPort => "unknown port",
            StartupError::PlatformUnsupported => "poorly made os",
        }
    }
}

/// Which serial device the commands go to.
#[derive(Debug, PartialEq, Eq)]
pub enum SerialSelection {
    /// No device: commands are dropped.
    NoDevice,
    /// The device of this name.
    Device(String),
}

/// The selection that a token stands for: the word `none` for no device,
/// anything else for the device of that name.
pub open spec fn selects_device(token: Seq<char>) -> bool {
    token != "none"@
}

/// Reads the answer to the question which serial device to use.
pub fn parse_serial_selection(token: &str) -> (selection: SerialSelection)
    ensures
        selection matches SerialSelection::Device(name) ==> selects_device(token@) && name@
            == token@,
        selection is NoDevice ==> !selects_device(token@),
{
    let name = String::from_str(token);
    if name == String::from_str("none") {
        SerialSelection::NoDevice
    } else {
        SerialSelection::Device(name)
    }
}

/// The mode that a token stands for.
pub open spec fn connection_mode_of(token: Seq<char>) -> Result<ConnectionMode, StartupError> {
    if token == "loopback"@ {
        Ok(ConnectionMode::Loopback)
    } else if token == "virtual"@ {
        Ok(ConnectionMode::Virtual)
    } else {
        Err(StartupError::InvalidMode)
    }
}

/// Reads the answer to the question which connection mode to use. The two
/// words are matched exactly; anything else is an error.
pub fn parse_connection_mode(token: &str) -> (mode: Result<ConnectionMode, StartupError>)
    ensures
        mode == connection_mode_of(token@),
{
    let given = String::from_str(token);
    if given == String::from_str("loopback") {
        Ok(ConnectionMode::Loopback)
    } else if given == String::from_str("virtual") {
        Ok(ConnectionMode::Virtual)
    } else {
        Err(StartupError::InvalidMode)
    }
}

/// The mapping from port names to ports, a port being its place in the list:
/// where two ports share a name, the later one has it.
pub open spec fn port_map(names: Seq<String>) -> Map<Seq<char>, int>
    decreases names.len(),
{
    if names.len() == 0 {
        Map::empty()
    } else {
        port_map(names.drop_last()).insert(names.last()@, names.len() - 1)
    }
}

/// The port that a name selects: the one that the mapping has for it, or
/// `UnknownPort` if the name is not in the mapping.
pub open spec fn selected_port(names: Seq<String>, port_name: Seq<char>) -> Result<
    int,
    StartupError,
> {
    if port_map(names).dom().contains(port_name) {
        Ok(port_map(names)[port_name])
    } else {
        Err(StartupError::UnknownPort)
    }
}

/// A name is in the mapping exactly if some port has it, and then it stands
/// for the last port that has it.
pub proof fn lemma_port_map_holds_last_of_each_name(names: Seq<String>, name: Seq<char>)
    ensures
        port_map(names).dom().contains(name) <==> exists|i: int|
            0 <= i < names.len() && (#[trigger] names[i])@ == name,
        port_map(names).dom().contains(name) ==> {
            let i = port_map(names)[name];
            &&& 0 <= i < names.len()
            &&& names[i]@ == name
            &&& forall|j: int| i < j < names.len() ==> (#[trigger] names[j])@ != name
        },
    decreases names.len(),
{
    if names.len() > 0 {
        let front = names.drop_last();
        lemma_port_map_holds_last_of_each_name(front, name);
        if names.last()@ != name {
            if port_map(front).dom().contains(name) {
                let k = port_map(front)[name];
                assert forall|j: int| k < j < names.len() implies (#[trigger] names[j])@
                    != name by {
                    if j < front.len() {
                        assert(names[j] == front[j]);
                    }
                }
            }
            if exists|i: int| 0 <= i < names.len() && (#[trigger] names[i])@ == name {
                let i = choose|i: int| 0 <= i < names.len() && (#[trigger] names[i])@ == name;
                assert(front[i]@ == name);
            }
        }
    }
}

/// Named-port mode: picks the port to connect to from the listed ports.
///
/// `names` are the names of the input ports in the order in which the MIDI
/// subsystem lists them. The result is the place of the chosen port in that
/// list, or `UnknownPort` if no port has the name.
pub fn use_loopback(names: &Vec<String>, port_name: &str) -> (port: Result<usize, StartupError>)
    ensures
        port matches Ok(i) ==> selected_port(names@, port_name@) == Ok::<int, StartupError>(
            i as int,
        ),
        port matches Err(error) ==> selected_port(names@, port_name@) == Err::<
            int,
            StartupError,
        >(error),
{
    let wanted = String::from_str(port_name);
    let mut i: usize = names.len();
    while i > 0
        invariant
            i <= names.len(),
            wanted@ == port_name@,
            forall|j: int| i <= j < names.len() ==> (#[trigger] names@[j])@ != port_name@,
        decreases i,
    {
        i -= 1;
        if names[i] == wanted {
            proof {
                lemma_port_map_holds_last_of_each_name(names@, port_name@);
            }
            return Ok(i);
        }
    }
    proof {
        lemma_port_map_holds_last_of_each_name(names@, port_name@);
    }
    Err(StartupError::UnknownPort)
}

/// Virtual-port mode: possible only where the platform has virtual ports.
pub fn use_virtual(platform_has_virtual_ports: bool) -> (ready: Result<(), StartupError>)
    ensures
        platform_has_virtual_ports ==> ready is Ok,
        !platform_has_virtual_ports ==> ready == Err::<(), StartupError>(
            StartupError::PlatformUnsupported,
        ),
{
    if platform_has_virtual_ports {
        Ok(())
    } else {
        Err(StartupError::PlatformUnsupported)
    }
}

} // verus!
