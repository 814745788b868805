use vstd::prelude::*;

verus! {

/// A handle on a hardware signal that guards read.
///
/// Ports live outside guards and are shared by them: a handle names the port
/// by its stable index `id`, and carries `constant`, the value the port is
/// statically known to hold (`None` when it is not a known constant).
#[derive(Clone, Copy, Debug, PartialEq, Eq, Structural)]
pub struct Port {
    pub id: u64,
    pub constant: Option<u64>,
}

impl Port {
    /// A port that is not known to hold a constant.
    pub fn new(id: u64) -> (r: Port)
        ensures
            r.id == id,
            r.constant is None,
    {
        Port { id, constant: None }
    }

    /// A port known to hold the constant `value`.
    pub fn constant(id: u64, value: u64) -> (r: Port)
        ensures
            r.id == id,
            r.constant == Some(value),
    {
        Port { id, constant: Some(value) }
    }

    /// Whether this port is statically known to hold `value`.
    pub open spec fn spec_is_constant(self, value: u64) -> bool {
        self.constant == Some(value)
    }

    /// Whether this port is statically known to hold `value`.
    pub fn is_constant(&self, value: u64) -> (r: bool)
        ensures
            r == self.spec_is_constant(value),
    {
        match self.constant {
            Some(v) => v == value,
            None => false,
        }
    }
}

} // verus!
