//! The device listing as structured text.

use vstd::prelude::*;
use vstd::string::*;
use crate::error::Error;

verus! {

/// One device of the current user, as the homeserver lists it.
#[derive(Clone, Debug)]
pub struct Device {
    /// The identifier of the device.
    pub device_id: String,
    /// The name the device is shown under, where it has one.
    pub display_name: Option<String>,
}

/// The line of text for one device: the word `Device:`, the identifier and
/// the display name, which is empty where the device has none.
pub open spec fn device_line(device: Device) -> Seq<char> {
    "Device: "@ + device.device_id@ + " "@ + match device.display_name {
        Some(name) => name@,
        None => Seq::<char>::empty(),
    }
}

/// Renders the line of text for one device.
pub fn describe(device: &Device) -> (line: String)
    ensures
        line@ == device_line(*device),
{
    let mut line = String::from_str("Device: ");
    line.append(device.device_id.as_str());
    line.append(" ");
    match &device.display_name {
        Some(name) => {
            line.append(name.as_str());
        },
        None => {
            assert(line@ + Seq::<char>::empty() =~= line@);
        },
    }
    line
}

/// Renders the device listing, one line per device and in the order of the
/// listing. Needs a logged-in session: without one the result is
/// `NotLoggedIn` and the listing is not looked at.
pub fn devices(logged_in: bool, listing: &Vec<Device>) -> (r: Result<Vec<String>, Error>)
    ensures
        !logged_in ==> (r matches Err(e) && e == Error::NotLoggedIn),
        logged_in ==> (r matches Ok(lines) && lines.len() == listing.len() && forall|i: int|
            0 <= i < listing.len() ==> (#[trigger] lines[i])@ == device_line(listing[i])),
{
    if !logged_in {
        return Err(Error::NotLoggedIn);
    }
    let mut lines: Vec<String> = Vec::new();
    let mut i: usize = 0;
    while i < listing.len()
        invariant
            i <= listing.len(),
            lines.len() == i,
            forall|k: int| 0 <= k < i ==> (#[trigger] lines[k])@ == device_line(listing[k]),
        decreases listing.len() - i,
    {
        lines.push(describe(&listing[i]));
        i = i + 1;
    }
    Ok(lines)
}

} // verus!
