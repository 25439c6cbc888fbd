//! What a client knows of an open display: the root window and the screen
//! size read when it was opened, and the decisions taken while opening it.

use vstd::prelude::*;
use vstd::string::StringSliceAdditionalSpecFns;

verus! {

/// Why a display could not be opened.
#[derive(Clone, Copy, Debug, PartialEq, Eq, Structural)]
pub enum DisplayErrorKind {
    /// The identifier holds a nul byte at this position, so it has no
    /// nul-terminated wire form.
    InvalidIdentifier { nul_position: usize },
    /// The server refused the connection or could not be reached.
    ConnectionFailed,
}

/// The error returned when a display cannot be opened.
#[derive(Clone, Copy, Debug, PartialEq, Eq, Structural)]
pub struct DisplayCreationError {
    pub kind: DisplayErrorKind,
}

impl DisplayCreationError {
    /// A one-line description of the error.
    pub fn description(&self) -> (r: &'static str)
        ensures
            self.kind is ConnectionFailed ==> r@ == "Couldn't open display: XOpenDisplay returned NULL"@,
            self.kind is InvalidIdentifier ==> r@ == "nul byte found in the display identifier"@,
    {
        match self.kind {
            DisplayErrorKind::InvalidIdentifier { .. } => "nul byte found in the display identifier",
            DisplayErrorKind::ConnectionFailed => "Couldn't open display: XOpenDisplay returned NULL",
        }
    }
}

/// The byte string holds no nul byte.
pub open spec fn nul_free(bytes: Seq<u8>) -> bool {
    forall|i: int| 0 <= i < bytes.len() ==> bytes[i] != 0
}

/// Checks that a display identifier can be sent as a nul-terminated string;
/// otherwise names the first nul byte.
pub fn validate_identifier(identifier: &str) -> (r: Result<(), DisplayCreationError>)
    ensures
        r is Ok <==> nul_free(identifier.spec_bytes()),
        r matches Err(e) ==> e.kind matches DisplayErrorKind::InvalidIdentifier { nul_position } && {
            &&& nul_position < identifier.spec_bytes().len()
            &&& identifier.spec_bytes()[nul_position as int] == 0
            &&& nul_free(identifier.spec_bytes().subrange(0, nul_position as int))
        },
{
    let bytes = identifier.as_bytes();
    let mut i: usize = 0;
    while i < bytes.len()
        invariant
            i <= bytes@.len(),
            bytes@ == identifier.spec_bytes(),
            nul_free(bytes@.subrange(0, i as int)),
        decreases bytes@.len() - i,
    {
        if bytes[i] == 0 {
            return Err(DisplayCreationError { kind: DisplayErrorKind::InvalidIdentifier { nul_position: i } });
        }
        proof {
            assert forall|k: int| 0 <= k < i + 1 implies #[trigger] bytes@.subrange(0, i + 1)[k] != 0 by {
                if k < i {
                    assert(bytes@.subrange(0, i + 1)[k] == bytes@.subrange(0, i as int)[k]);
                }
            }
        }
        i = i + 1;
    }
    assert(bytes@.subrange(0, bytes@.len() as int) =~= bytes@);
    Ok(())
}

/// The root window of a display's default screen and its size, as the
/// server reported them just after the connection was opened.
#[derive(Clone, Copy, Debug, PartialEq, Eq, Structural)]
pub struct RootGeometry {
    pub window: u64,
    pub width: u32,
    pub height: u32,
}

/// An open display: its root window and the size of its default screen,
/// recorded when it was opened.
#[derive(Debug, PartialEq, Eq, Structural)]
pub struct Display {
    pub window: u64,
    pub width: u32,
    pub height: u32,
}

/// A rectangle of the screen: offset and size in pixels.
#[derive(Clone, Copy, Debug, PartialEq, Eq, Structural)]
pub struct Region {
    pub x: u32,
    pub y: u32,
    pub width: u32,
    pub height: u32,
}

impl Display {
    /// Finishes opening a display: `None` stands for a connection that the
    /// server refused, `Some` for the root geometry read after it opened.
    pub fn from_root(root: Option<RootGeometry>) -> (r: Result<Display, DisplayCreationError>)
        ensures
            root is None <==> r is Err,
            r matches Err(e) ==> e.kind == DisplayErrorKind::ConnectionFailed,
            r matches Ok(d) ==> root matches Some(g) && d.window == g.window && d.width == g.width
                && d.height == g.height,
    {
        match root {
            Some(g) => Ok(Display { window: g.window, width: g.width, height: g.height }),
            None => Err(DisplayCreationError { kind: DisplayErrorKind::ConnectionFailed }),
        }
    }

    /// The whole screen, as recorded when the display was opened.
    pub fn screen_region(&self) -> (r: Region)
        ensures
            r == (Region { x: 0, y: 0, width: self.width, height: self.height }),
    {
        Region { x: 0, y: 0, width: self.width, height: self.height }
    }
}

/// The pointer position relative to the root window, from a pointer query
/// that reported `status`: the query succeeded exactly when `status` is not 0.
pub fn pointer_position(status: i32, root_x: i32, root_y: i32) -> (r: Option<(i32, i32)>)
    ensures
        status == 0 ==> r is None,
        status != 0 ==> r == Some((root_x, root_y)),
{
    if status != 0 {
        Some((root_x, root_y))
    } else {
        None
    }
}

} // verus!
