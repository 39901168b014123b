//! Which input device drives the view, and what a poll of it comes to.

use vstd::prelude::*;
use vstd::string::*;

verus! {

/// The two kinds of device that give a two-axis signal.
#[derive(Clone, Copy, Debug, PartialEq, Eq, Structural)]
pub enum InputVariant {
    /// An analog stick of a gamepad.
    Gamepad,
    /// A balance board with a pressure sensor in each corner.
    BalanceBoard,
}

impl InputVariant {
    /// The device that the configuration asks for: the balance board where
    /// `balance` is set, the gamepad where it is not.
    pub fn from_flag(balance: bool) -> (v: InputVariant)
        ensures
            v == (if balance {
                InputVariant::BalanceBoard
            } else {
                InputVariant::Gamepad
            }),
    {
        if balance {
            InputVariant::BalanceBoard
        } else {
            InputVariant::Gamepad
        }
    }
}

/// Why no input device could be bound at startup.
#[derive(Clone, Copy, Debug, PartialEq, Eq, Structural)]
pub enum InputError {
    /// No device of this kind is connected.
    DeviceNotFound(InputVariant),
}

/// The words for a missing device of the given kind.
pub open spec fn missing_words(variant: InputVariant) -> Seq<char> {
    match variant {
        InputVariant::Gamepad => "No gamepads found"@,
        InputVariant::BalanceBoard => "No balance board found"@,
    }
}

impl InputError {
    /// The error in words.
    pub fn message(&self) -> (words: String)
        ensures
            words@ == missing_words(self->DeviceNotFound_0),
    {
        match self {
            InputError::DeviceNotFound(InputVariant::Gamepad) => String::from_str("No gamepads found"),
            InputError::DeviceNotFound(InputVariant::BalanceBoard) => String::from_str(
                "No balance board found",
            ),
        }
    }
}

/// What `first_device` returns for the devices of one kind that were found.
pub open spec fn first_of<D>(variant: InputVariant, devices: Seq<D>) -> Result<D, InputError> {
    if devices.len() == 0 {
        Err(InputError::DeviceNotFound(variant))
    } else {
        Ok(devices[0])
    }
}

/// Picks the device to bind among those of the wanted kind that were found
/// at startup, in the order in which they were found: the first, or
/// `DeviceNotFound` where there is none.
pub fn first_device<D>(variant: InputVariant, devices: Vec<D>) -> (bound: Result<D, InputError>)
    ensures
        bound == first_of(variant, devices@),
{
    let mut devices = devices;
    if devices.len() == 0 {
        Err(InputError::DeviceNotFound(variant))
    } else {
        Ok(devices.swap_remove(0))
    }
}

/// What `settle` returns for a reading.
pub open spec fn settled<S, E>(reading: Result<Option<S>, E>, neutral: S) -> S {
    match reading {
        Ok(Some(signal)) => signal,
        Ok(None) => neutral,
        Err(_) => neutral,
    }
}

/// Turns one reading of a device into the signal of this tick. A poll never
/// fails: a read error, or no fresh sample, gives the neutral signal.
pub fn settle<S, E>(reading: Result<Option<S>, E>, neutral: S) -> (signal: S)
    ensures
        signal == settled(reading, neutral),
{
    match reading {
        Ok(Some(signal)) => signal,
        Ok(None) => neutral,
        Err(_) => neutral,
    }
}

} // verus!
