//! The preset-management command's typed values: which action was asked
//! for, and on which preset file.

use vstd::prelude::*;

verus! {

/// What to do with a preset file.
#[derive(Debug, Copy, Clone, Eq, PartialEq, Structural)]
pub enum ConfigAction {
    Create,
    Modify,
    Show,
}

/// A preset-management request: the preset file and the action on it.
#[derive(Debug)]
pub struct ConfigManager {
    pub input: String,
    pub action: ConfigAction,
}

impl ConfigManager {
    pub fn new(path: String, action: ConfigAction) -> (r: Self)
        ensures
            r.input == path,
            r.action == action,
    {
        ConfigManager { input: path, action }
    }

    /// Reads the three mutually exclusive action flags: exactly one must be
    /// set, and creation takes precedence over modification over showing
    /// when resolving which was asked for.
    pub fn match_args(create: bool, modify: bool, show: bool, input: String) -> (r: Result<
        ConfigManager,
        String,
    >)
        ensures
            r is Ok <==> ((create && !modify && !show) || (!create && modify && !show) || (!create
                && !modify && show)),
            r matches Ok(m) ==> m.input == input && m.action == (if create {
                ConfigAction::Create
            } else if modify {
                ConfigAction::Modify
            } else {
                ConfigAction::Show
            }),
            r matches Err(e) ==> e@ == "Must specify on of the options! (create, modify or show)"@,
    {
        let sum: u32 = (if create {
            1
        } else {
            0
        }) + (if modify {
            1
        } else {
            0
        }) + (if show {
            1
        } else {
            0
        });
        if sum != 1 {
            return Err(String::from_str("Must specify on of the options! (create, modify or show)"));
        }
        let action = if create {
            ConfigAction::Create
        } else if modify {
            ConfigAction::Modify
        } else {
            ConfigAction::Show
        };
        Ok(ConfigManager::new(input, action))
    }
}

} // verus!
