use vstd::prelude::*;

use crate::client::{ClientId, MsgParserError};

verus! {

/// The protocol id of a `wl_registry`.
#[derive(Debug, Clone, Copy, PartialEq, Eq, Structural)]
pub struct WlRegistryId(pub u32);

/// The name under which a global is announced.
#[derive(Debug, Clone, Copy, PartialEq, Eq, Structural)]
pub struct GlobalName(pub u32);

/// A protocol interface, by name.
#[derive(Debug, Clone, PartialEq, Eq)]
pub struct Interface {
    pub name: String,
}

/// A global as the registry sees it: its name, its interface and the
/// highest version it supports.
#[derive(Debug, Clone, PartialEq, Eq)]
pub struct Global {
    pub name: GlobalName,
    pub interface: Interface,
    pub version: u32,
}

/// A decoded `bind` request.
#[derive(Debug, Clone, PartialEq, Eq)]
pub struct BindIn {
    pub name: u32,
    pub interface: String,
    pub version: u32,
    pub id: u32,
}

/// A client's `wl_registry`.
#[derive(Debug, Clone, Copy, PartialEq, Eq, Structural)]
pub struct WlRegistry {
    pub id: WlRegistryId,
    pub client: ClientId,
}

/// The events of a `wl_registry`.
#[derive(Debug, Clone, PartialEq, Eq)]
pub enum WlRegistryEvent {
    Global { self_id: WlRegistryId, name: u32, interface: String, version: u32 },
    GlobalRemove { self_id: WlRegistryId, name: u32 },
}

/// Errors of a `wl_registry`.
#[derive(Debug, Clone, PartialEq, Eq)]
pub enum WlRegistryError {
    BindError(BindError),
}

/// Why a global could not be looked up.
#[derive(Debug, Clone, Copy, PartialEq, Eq, Structural)]
pub enum GlobalsError {
    GlobalDoesNotExist(GlobalName),
}

/// Errors of the `bind` request.
#[derive(Debug, Clone, PartialEq, Eq)]
pub enum BindError {
    ParseError(MsgParserError),
    GlobalsError(GlobalsError),
    InvalidInterface(InterfaceError),
    InvalidVersion(VersionError),
}

/// A bind named the wrong interface for the global.
#[derive(Debug, Clone, PartialEq, Eq)]
pub struct InterfaceError {
    pub name: GlobalName,
    pub interface: Interface,
    pub actual: String,
}

/// A bind asked for a higher version than the global supports.
#[derive(Debug, Clone, PartialEq, Eq)]
pub struct VersionError {
    pub name: GlobalName,
    pub interface: Interface,
    pub version: u32,
    pub actual: u32,
}

/// The first global of `globals` named `name`, if any.
pub open spec fn global_index(globals: Seq<Global>, name: u32) -> Option<int> {
    if exists|i: int| 0 <= i < globals.len() && #[trigger] globals[i].name.0 == name {
        Some(choose|i: int| 0 <= i < globals.len() && #[trigger] globals[i].name.0 == name
            && forall|j: int| 0 <= j < i ==> globals[j].name.0 != name)
    } else {
        None
    }
}

/// The outcome of a bind: the index of the global to bind, or why the bind
/// is refused.
pub open spec fn bind_result(globals: Seq<Global>, req: BindIn) -> Result<usize, BindError> {
    match global_index(globals, req.name) {
        None => Err(BindError::GlobalsError(GlobalsError::GlobalDoesNotExist(GlobalName(req.name)))),
        Some(i) => {
            let g = globals[i];
            if g.interface.name@ != req.interface@ {
                Err(BindError::InvalidInterface(InterfaceError { name: g.name, interface: g.interface, actual: req.interface }))
            } else if req.version > g.version {
                Err(BindError::InvalidVersion(VersionError { name: g.name, interface: g.interface, version: g.version, actual: req.version }))
            } else {
                Ok(i as usize)
            }
        },
    }
}

impl WlRegistry {
    /// The registry with the given id for `client`.
    pub fn new(id: WlRegistryId, client: ClientId) -> (r: Self)
        ensures
            r == (WlRegistry { id, client }),
    {
        WlRegistry { id, client }
    }

    /// Announces `global` to the client.
    pub fn send_global(&self, global: &Global) -> (r: WlRegistryEvent)
        ensures
            r matches WlRegistryEvent::Global { self_id, name, interface, version }
                && self_id == self.id && name == global.name.0 && interface@ == global.interface.name@
                && version == global.version,
    {
        WlRegistryEvent::Global {
            self_id: self.id,
            name: global.name.0,
            interface: global.interface.name.clone(),
            version: global.version,
        }
    }

    /// Withdraws the global `name` from the client.
    pub fn send_global_remove(&self, name: GlobalName) -> (r: WlRegistryEvent)
        ensures
            r == (WlRegistryEvent::GlobalRemove { self_id: self.id, name: name.0 }),
    {
        WlRegistryEvent::GlobalRemove { self_id: self.id, name: name.0 }
    }

    /// Decides a bind request against the globals: the global must exist,
    /// have the requested interface, and support the requested version.
    /// Returns the index of the global to bind.
    pub fn bind(&self, req: &BindIn, globals: &Vec<Global>) -> (r: Result<usize, BindError>)
        ensures
            r == bind_result(globals@, *req),
    {
        let mut i: usize = 0;
        while i < globals.len()
            invariant
                i <= globals@.len(),
                forall|j: int| 0 <= j < i ==> #[trigger] globals@[j].name.0 != req.name,
            decreases globals@.len() - i,
        {
            if globals[i].name.0 == req.name {
                proof {
                    let c = choose|c: int| 0 <= c < globals@.len() && #[trigger] globals@[c].name.0 == req.name
                        && forall|j: int| 0 <= j < c ==> globals@[j].name.0 != req.name;
                    assert(globals@[i as int].name.0 == req.name);
                    if c < i {
                    } else if c > i {
                    }
                    assert(c == i);
                }
                let g = &globals[i];
                if g.interface.name != req.interface {
                    return Err(BindError::InvalidInterface(InterfaceError {
                        name: g.name,
                        interface: Interface { name: g.interface.name.clone() },
                        actual: req.interface.clone(),
                    }));
                }
                if req.version > g.version {
                    return Err(BindError::InvalidVersion(VersionError {
                        name: g.name,
                        interface: Interface { name: g.interface.name.clone() },
                        version: g.version,
                        actual: req.version,
                    }));
                }
                return Ok(i);
            }
            i += 1;
        }
        Err(BindError::GlobalsError(GlobalsError::GlobalDoesNotExist(GlobalName(req.name))))
    }
}

} // verus!
