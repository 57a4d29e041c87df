use vstd::prelude::*;

verus! {

/// The key bindings that the settings name.
#[derive(Debug)]
pub struct Keymap {
    pub delete: String,
    pub interact: String,
}

/// Key bindings as a user's settings give them: each one may be left out.
#[derive(Debug)]
pub struct RawKeymap {
    pub delete: Option<String>,
    pub interact: Option<String>,
}

/// The complete settings.
#[derive(Debug)]
pub struct Config {
    pub keymap: Keymap,
}

/// A user's settings, where a whole section may be left out.
#[derive(Debug)]
pub struct RawConfig {
    pub keymap: Option<RawKeymap>,
}

/// `given` where it is there, `base` otherwise.
pub open spec fn overridden(base: String, given: Option<String>) -> String {
    match given {
        Some(v) => v,
        None => base,
    }
}

impl Keymap {
    /// Each binding that `raw` gives replaces the one in `self`.
    pub fn merge(self, raw: RawKeymap) -> (r: Keymap)
        ensures
            r.delete == overridden(self.delete, raw.delete),
            r.interact == overridden(self.interact, raw.interact),
    {
        Keymap {
            delete: match raw.delete {
                Some(v) => v,
                None => self.delete,
            },
            interact: match raw.interact {
                Some(v) => v,
                None => self.interact,
            },
        }
    }
}

impl Config {
    /// Layers a user's settings over `self`: what they give wins, the rest stays.
    pub fn merge(self, raw: RawConfig) -> (r: Config)
        ensures
            match raw.keymap {
                Some(k) => {
                    &&& r.keymap.delete == overridden(self.keymap.delete, k.delete)
                    &&& r.keymap.interact == overridden(self.keymap.interact, k.interact)
                },
                None => r.keymap == self.keymap,
            },
    {
        Config {
            keymap: match raw.keymap {
                Some(k) => self.keymap.merge(k),
                None => self.keymap,
            },
        }
    }
}

} // verus!
