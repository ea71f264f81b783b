use vstd::prelude::*;
use vstd::string::*;

verus! {

/// The HomeKit setup code drawn from eight random bytes: each byte becomes
/// the digit `byte % 9`, so every digit lies in `0..9`.
pub fn pin_digits(random: [u8; 8]) -> (pin: [u8; 8])
    ensures
        forall|i: int| 0 <= i < 8 ==> #[trigger] pin@[i] == random@[i] % 9,
        forall|i: int| 0 <= i < 8 ==> #[trigger] pin@[i] < 9,
{
    let mut pin: [u8; 8] = [0; 8];
    let mut i: usize = 0;
    while i < 8
        invariant
            0 <= i <= 8,
            forall|k: int| 0 <= k < i ==> #[trigger] pin@[k] == random@[k] % 9,
        decreases 8 - i,
    {
        pin[i] = random[i] % 9;
        i = i + 1;
    }
    pin
}

/// The HomeKit accessory category the home announces itself as.
#[derive(Clone, Copy, Debug, PartialEq, Eq, Structural)]
pub enum AccessoryCategory {
    Bridge,
}

/// The settings of a new HomeKit bridge: its name, its setup code, the
/// device identifier taken from the machine's MAC address, and its category.
pub struct BridgeConfig {
    pub name: String,
    pub pin: [u8; 8],
    pub device_id: [u8; 6],
    pub category: AccessoryCategory,
}

/// The settings for a bridge that has none stored yet: it is called `Home`,
/// its setup code comes from `random` as `pin_digits` draws it, and its
/// identifier is the MAC address `mac`, and it is a bridge.
pub fn bridge_config(random: [u8; 8], mac: [u8; 6]) -> (config: BridgeConfig)
    ensures
        config.name@ == "Home"@,
        forall|i: int| 0 <= i < 8 ==> #[trigger] config.pin@[i] == random@[i] % 9,
        forall|i: int| 0 <= i < 8 ==> #[trigger] config.pin@[i] < 9,
        config.device_id == mac,
        config.category == AccessoryCategory::Bridge,
{
    BridgeConfig {
        name: String::from_str("Home"),
        pin: pin_digits(random),
        device_id: mac,
        category: AccessoryCategory::Bridge,
    }
}

} // verus!
