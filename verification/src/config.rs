//! Static geometry, margin and interaction parameters.
use vstd::prelude::*;

verus! {

/// Size of a sidebar window and the space between two of them, in pixels.
#[derive(Copy, Clone, PartialEq, Eq, Debug)]
pub struct Geometry {
    pub width: i32,
    pub height: i32,
    pub gap: i32,
}

/// Space kept free at the top and at the right of the screen, in pixels.
#[derive(Copy, Clone, PartialEq, Eq, Debug)]
pub struct Margins {
    pub top: i32,
    pub right: i32,
}

/// How many pixels of a window stay on screen while the sidebar is hidden.
#[derive(Copy, Clone, PartialEq, Eq, Debug)]
pub struct Interaction {
    pub peek: i32,
    pub focus_peek: i32,
}

#[derive(Copy, Clone, PartialEq, Eq, Debug)]
pub struct Config {
    pub geometry: Geometry,
    pub margins: Margins,
    pub interaction: Interaction,
}

/// The options that a configuration document gave; each one may be absent.
#[derive(Copy, Clone, PartialEq, Eq, Debug)]
pub struct Overrides {
    pub width: Option<i32>,
    pub height: Option<i32>,
    pub gap: Option<i32>,
    pub top: Option<i32>,
    pub right: Option<i32>,
    pub peek: Option<i32>,
    pub focus_peek: Option<i32>,
}

/// The value of an option: what the user gave, else what is shipped.
pub open spec fn or_shipped(given: Option<i32>, shipped: i32) -> i32 {
    match given {
        Some(value) => value,
        None => shipped,
    }
}

fn pick(given: Option<i32>, shipped: i32) -> (value: i32)
    ensures
        value == or_shipped(given, shipped),
{
    match given {
        Some(value) => value,
        None => shipped,
    }
}

impl Config {
    /// The configuration that is used where the user gave none.
    pub open spec fn shipped() -> Config {
        Config {
            geometry: Geometry { width: 400, height: 335, gap: 10 },
            margins: Margins { top: 50, right: 10 },
            interaction: Interaction { peek: 10, focus_peek: 50 },
        }
    }

    /// The shipped configuration with every given option in place of the
    /// shipped one.
    pub open spec fn overridden(overrides: Overrides) -> Config {
        let shipped = Config::shipped();
        Config {
            geometry: Geometry {
                width: or_shipped(overrides.width, shipped.geometry.width),
                height: or_shipped(overrides.height, shipped.geometry.height),
                gap: or_shipped(overrides.gap, shipped.geometry.gap),
            },
            margins: Margins {
                top: or_shipped(overrides.top, shipped.margins.top),
                right: or_shipped(overrides.right, shipped.margins.right),
            },
            interaction: Interaction {
                peek: or_shipped(overrides.peek, shipped.interaction.peek),
                focus_peek: or_shipped(overrides.focus_peek, shipped.interaction.focus_peek),
            },
        }
    }

    /// The configuration to work with, given what reading the configuration
    /// document gave: `None` stands for a missing or unreadable document and
    /// gives the shipped configuration; an absent option falls back to the
    /// shipped one.
    pub fn resolve(parsed: Option<Overrides>) -> (config: Config)
        ensures
            parsed.is_none() ==> config == Config::shipped(),
            parsed.is_some() ==> config == Config::overridden(parsed.unwrap()),
    {
        let shipped = Config::default();
        match parsed {
            None => shipped,
            Some(overrides) => Config {
                geometry: Geometry {
                    width: pick(overrides.width, shipped.geometry.width),
                    height: pick(overrides.height, shipped.geometry.height),
                    gap: pick(overrides.gap, shipped.geometry.gap),
                },
                margins: Margins {
                    top: pick(overrides.top, shipped.margins.top),
                    right: pick(overrides.right, shipped.margins.right),
                },
                interaction: Interaction {
                    peek: pick(overrides.peek, shipped.interaction.peek),
                    focus_peek: pick(overrides.focus_peek, shipped.interaction.focus_peek),
                },
            },
        }
    }
}

impl Default for Config {
    fn default() -> (config: Config)
        ensures
            config == Config::shipped(),
    {
        Config {
            geometry: Geometry { width: 400, height: 335, gap: 10 },
            margins: Margins { top: 50, right: 10 },
            interaction: Interaction { peek: 10, focus_peek: 50 },
        }
    }
}

} // verus!
