use vstd::prelude::*;

use crate::devices::DeviceState;

verus! {

/// What the device list reads of a Bluetooth device.
pub struct BluetoothDeviceInfo {
    /// Bluetooth hardware address.
    pub bdaddr: String,
    /// Friendly name reported by BlueZ.
    pub name: Option<String>,
    /// Alias set for the device.
    pub alias: Option<String>,
    pub state: DeviceState,
}

/// The small label at the end of a device row: its text and style class.
pub struct StateLabel {
    pub text: &'static str,
    pub css_class: &'static str,
}

/// One row of the Bluetooth device list.
pub struct BluetoothRow {
    /// The row is styled as connected and carries a "Connected" tag.
    pub connected: bool,
    /// The name shown, followed by the address in brackets.
    pub display_name: String,
    /// The state label, for the states that have one.
    pub state_label: Option<StateLabel>,
}

/// The name a device is shown by: its alias, else its name, else
/// "Unknown device".
pub open spec fn shown_name(dev: BluetoothDeviceInfo) -> Seq<char> {
    match dev.alias {
        Some(a) => a@,
        None => match dev.name {
            Some(n) => n@,
            None => "Unknown device"@,
        },
    }
}

/// "<name> (<address>)".
pub open spec fn display_name_of(dev: BluetoothDeviceInfo) -> Seq<char> {
    shown_name(dev) + " ("@ + dev.bdaddr@ + ")"@
}

/// The state text for the states that have one.
pub open spec fn state_text_of(state: DeviceState) -> Option<Seq<char>> {
    match state {
        DeviceState::Activated => Some("Connected"@),
        DeviceState::Disconnected => Some("Disconnected"@),
        DeviceState::Unavailable => Some("Unavailable"@),
        DeviceState::Failed => Some("Failed"@),
        _ => None,
    }
}

/// The style class of the state label.
pub open spec fn state_class_of(state: DeviceState) -> Seq<char> {
    match state {
        DeviceState::Activated => "network-good"@,
        DeviceState::Unavailable | DeviceState::Disconnected | DeviceState::Failed => "network-poor"@,
        _ => "network-okay"@,
    }
}

/// `row` is how `dev` is shown.
pub open spec fn shows_device(dev: BluetoothDeviceInfo, row: BluetoothRow) -> bool {
    &&& row.connected == (dev.state == DeviceState::Activated)
    &&& row.display_name@ == display_name_of(dev)
    &&& (row.state_label is Some <==> state_text_of(dev.state) is Some)
    &&& (row.state_label matches Some(l) ==> l.text@ == state_text_of(dev.state)->0 && l.css_class@
        == state_class_of(dev.state))
}

/// The text of the state label, for the states that have one.
pub fn state_text(state: DeviceState) -> (t: Option<&'static str>)
    ensures
        t is Some <==> state_text_of(state) is Some,
        t matches Some(s) ==> s@ == state_text_of(state)->0,
{
    match state {
        DeviceState::Activated => Some("Connected"),
        DeviceState::Disconnected => Some("Disconnected"),
        DeviceState::Unavailable => Some("Unavailable"),
        DeviceState::Failed => Some("Failed"),
        _ => None,
    }
}

/// The style class of the state label.
pub fn state_class(state: DeviceState) -> (c: &'static str)
    ensures
        c@ == state_class_of(state),
{
    match state {
        DeviceState::Activated => "network-good",
        DeviceState::Unavailable | DeviceState::Disconnected | DeviceState::Failed => "network-poor",
        _ => "network-okay",
    }
}

/// "<alias or name or 'Unknown device'> (<address>)".
pub fn device_display_name(dev: &BluetoothDeviceInfo) -> (s: String)
    ensures
        s@ == display_name_of(*dev),
{
    let name: &str = match &dev.alias {
        Some(a) => a.as_str(),
        None => match &dev.name {
            Some(n) => n.as_str(),
            None => "Unknown device",
        },
    };
    let mut s = String::from_str(name);
    s.append(" (");
    s.append(dev.bdaddr.as_str());
    s.append(")");
    s
}

/// How one Bluetooth device is shown.
pub fn bluetooth_row(dev: &BluetoothDeviceInfo) -> (row: BluetoothRow)
    ensures
        shows_device(*dev, row),
{
    let connected = match dev.state {
        DeviceState::Activated => true,
        _ => false,
    };
    let state_label = match state_text(dev.state) {
        Some(text) => Some(StateLabel { text, css_class: state_class(dev.state) }),
        None => None,
    };
    BluetoothRow { connected, display_name: device_display_name(dev), state_label }
}

/// The rows of the Bluetooth device list, one per device, in order.
pub fn bluetooth_devices_view(devices: &[BluetoothDeviceInfo]) -> (rows: Vec<BluetoothRow>)
    ensures
        rows.len() == devices@.len(),
        forall|i: int| 0 <= i < rows.len() ==> shows_device(devices@[i], #[trigger] rows@[i]),
        forall|i: int|
            0 <= i < rows.len() ==> (#[trigger] rows@[i].connected <==> devices@[i].state
                == DeviceState::Activated),
{
    let mut rows: Vec<BluetoothRow> = Vec::new();
    let mut i: usize = 0;
    while i < devices.len()
        invariant
            i <= devices@.len(),
            rows.len() == i,
            forall|j: int| 0 <= j < i ==> shows_device(devices@[j], #[trigger] rows@[j]),
        decreases devices@.len() - i,
    {
        rows.push(bluetooth_row(&devices[i]));
        i = i + 1;
    }
    rows
}

/// A row is marked connected exactly when its device is activated; only
/// activated, disconnected, unavailable and failed devices get a state
/// label, which reads "Connected", "Disconnected", "Unavailable" or
/// "Failed" and is styled good for an activated device and poor otherwise.
pub proof fn row_connected_only_when_activated(dev: BluetoothDeviceInfo, row: BluetoothRow)
    requires
        shows_device(dev, row),
    ensures
        row.connected <==> dev.state == DeviceState::Activated,
        row.state_label is Some <==> (dev.state == DeviceState::Activated || dev.state
            == DeviceState::Disconnected || dev.state == DeviceState::Unavailable || dev.state
            == DeviceState::Failed),
        dev.state == DeviceState::Activated ==> (row.state_label matches Some(l) && l.text@
            == "Connected"@ && l.css_class@ == "network-good"@),
        dev.state == DeviceState::Disconnected ==> (row.state_label matches Some(l) && l.text@
            == "Disconnected"@ && l.css_class@ == "network-poor"@),
        dev.state == DeviceState::Unavailable ==> (row.state_label matches Some(l) && l.text@
            == "Unavailable"@ && l.css_class@ == "network-poor"@),
        dev.state == DeviceState::Failed ==> (row.state_label matches Some(l) && l.text@ == "Failed"@
            && l.css_class@ == "network-poor"@),
{
}

/// A row names its device by its alias when it has one, else by its name,
/// else as "Unknown device", and follows that with its address in
/// brackets.
pub proof fn row_names_device(dev: BluetoothDeviceInfo, row: BluetoothRow)
    requires
        shows_device(dev, row),
    ensures
        dev.alias matches Some(a) ==> row.display_name@ == a@ + " ("@ + dev.bdaddr@ + ")"@,
        dev.alias is None && dev.name is Some ==> row.display_name@ == dev.name->0@ + " ("@
            + dev.bdaddr@ + ")"@,
        dev.alias is None && dev.name is None ==> row.display_name@ == "Unknown device"@ + " ("@
            + dev.bdaddr@ + ")"@,
{
}

} // verus!
