use vstd::prelude::*;
use vstd::std_specs::convert::FromSpec;

use crate::rgb::RGB;
use crate::rgba::RGBA;

verus! {

impl<T: Copy> RGB<T> {
    /// Converts every component with `U::from`, keeping the field order.
    pub fn convert<U: From<T>>(self) -> (out: RGB<U>)
        ensures
            U::obeys_from_spec() ==> out == self.map_spec(|c: T| U::from_spec(c)),
    {
        RGB { r: U::from(self.r), g: U::from(self.g), b: U::from(self.b) }
    }
}

/// Widens every component from `u8` to `u16`, keeping its value.
impl From<RGB<u8>> for RGB<u16> {
    fn from(other: RGB<u8>) -> (out: RGB<u16>) {
        RGB { r: other.r as u16, g: other.g as u16, b: other.b as u16 }
    }
}

impl vstd::std_specs::convert::FromSpecImpl<RGB<u8>> for RGB<u16> {
    open spec fn obeys_from_spec() -> bool {
        true
    }

    open spec fn from_spec(other: RGB<u8>) -> RGB<u16> {
        other.map_spec(|c: u8| c as u16)
    }
}

/// Widens every component from `u8` to `i16`, keeping its value.
impl From<RGB<u8>> for RGB<i16> {
    fn from(other: RGB<u8>) -> (out: RGB<i16>) {
        RGB { r: other.r as i16, g: other.g as i16, b: other.b as i16 }
    }
}

impl vstd::std_specs::convert::FromSpecImpl<RGB<u8>> for RGB<i16> {
    open spec fn obeys_from_spec() -> bool {
        true
    }

    open spec fn from_spec(other: RGB<u8>) -> RGB<i16> {
        other.map_spec(|c: u8| c as i16)
    }
}

/// Widens every component from `u8` to `u32`, keeping its value.
impl From<RGB<u8>> for RGB<u32> {
    fn from(other: RGB<u8>) -> (out: RGB<u32>) {
        RGB { r: other.r as u32, g: other.g as u32, b: other.b as u32 }
    }
}

impl vstd::std_specs::convert::FromSpecImpl<RGB<u8>> for RGB<u32> {
    open spec fn obeys_from_spec() -> bool {
        true
    }

    open spec fn from_spec(other: RGB<u8>) -> RGB<u32> {
        other.map_spec(|c: u8| c as u32)
    }
}

/// Widens every component from `u8` to `i32`, keeping its value.
impl From<RGB<u8>> for RGB<i32> {
    fn from(other: RGB<u8>) -> (out: RGB<i32>) {
        RGB { r: other.r as i32, g: other.g as i32, b: other.b as i32 }
    }
}

impl vstd::std_specs::convert::FromSpecImpl<RGB<u8>> for RGB<i32> {
    open spec fn obeys_from_spec() -> bool {
        true
    }

    open spec fn from_spec(other: RGB<u8>) -> RGB<i32> {
        other.map_spec(|c: u8| c as i32)
    }
}

/// Widens every component from `u16` to `u32`, keeping its value.
impl From<RGB<u16>> for RGB<u32> {
    fn from(other: RGB<u16>) -> (out: RGB<u32>) {
        RGB { r: other.r as u32, g: other.g as u32, b: other.b as u32 }
    }
}

impl vstd::std_specs::convert::FromSpecImpl<RGB<u16>> for RGB<u32> {
    open spec fn obeys_from_spec() -> bool {
        true
    }

    open spec fn from_spec(other: RGB<u16>) -> RGB<u32> {
        other.map_spec(|c: u16| c as u32)
    }
}

/// Widens every component from `u16` to `i32`, keeping its value.
impl From<RGB<u16>> for RGB<i32> {
    fn from(other: RGB<u16>) -> (out: RGB<i32>) {
        RGB { r: other.r as i32, g: other.g as i32, b: other.b as i32 }
    }
}

impl vstd::std_specs::convert::FromSpecImpl<RGB<u16>> for RGB<i32> {
    open spec fn obeys_from_spec() -> bool {
        true
    }

    open spec fn from_spec(other: RGB<u16>) -> RGB<i32> {
        other.map_spec(|c: u16| c as i32)
    }
}

/// Widens every component from `i16` to `i32`, keeping its value.
impl From<RGB<i16>> for RGB<i32> {
    fn from(other: RGB<i16>) -> (out: RGB<i32>) {
        RGB { r: other.r as i32, g: other.g as i32, b: other.b as i32 }
    }
}

impl vstd::std_specs::convert::FromSpecImpl<RGB<i16>> for RGB<i32> {
    open spec fn obeys_from_spec() -> bool {
        true
    }

    open spec fn from_spec(other: RGB<i16>) -> RGB<i32> {
        other.map_spec(|c: i16| c as i32)
    }
}

/// Widening 8-bit components to 16 bits and then to 32 bits gives what
/// widening them to 32 bits at once gives, with every value kept.
pub proof fn rgb_widening_composes(x: RGB<u8>)
    ensures
        <RGB<u32> as FromSpec<RGB<u16>>>::from_spec(<RGB<u16> as FromSpec<RGB<u8>>>::from_spec(x))
            == <RGB<u32> as FromSpec<RGB<u8>>>::from_spec(x),
        <RGB<i32> as FromSpec<RGB<i16>>>::from_spec(<RGB<i16> as FromSpec<RGB<u8>>>::from_spec(x))
            == <RGB<i32> as FromSpec<RGB<u8>>>::from_spec(x),
        <RGB<u32> as FromSpec<RGB<u8>>>::from_spec(x) == (RGB {
            r: x.r as u32,
            g: x.g as u32,
            b: x.b as u32,
        }),
{
}

/// Converting through `U` and then to `V` gives what converting to `V` at
/// once gives, wherever the component conversions compose that way.
pub proof fn rgb_convert_composes<T: Copy, U: Copy + From<T>, V: From<U> + From<T>>(x: RGB<T>)
    requires
        forall|t: T| #[trigger] V::from_spec(U::from_spec(t)) == V::from_spec(t),
    ensures
        x.map_spec(|c: T| U::from_spec(c)).map_spec(|c: U| V::from_spec(c)) == x.map_spec(
            |c: T| V::from_spec(c),
        ),
{
    assert(V::from_spec(U::from_spec(x.r)) == V::from_spec(x.r));
    assert(V::from_spec(U::from_spec(x.g)) == V::from_spec(x.g));
    assert(V::from_spec(U::from_spec(x.b)) == V::from_spec(x.b));
}

impl<T: Copy> RGBA<T> {
    /// Converts every component with `U::from`, keeping the field order.
    pub fn convert<U: From<T>>(self) -> (out: RGBA<U>)
        ensures
            U::obeys_from_spec() ==> out == self.map_spec(|c: T| U::from_spec(c)),
    {
        RGBA { r: U::from(self.r), g: U::from(self.g), b: U::from(self.b), a: U::from(self.a) }
    }
}

/// Widens every component from `u8` to `u16`, keeping its value.
impl From<RGBA<u8>> for RGBA<u16> {
    fn from(other: RGBA<u8>) -> (out: RGBA<u16>) {
        RGBA { r: other.r as u16, g: other.g as u16, b: other.b as u16, a: other.a as u16 }
    }
}

impl vstd::std_specs::convert::FromSpecImpl<RGBA<u8>> for RGBA<u16> {
    open spec fn obeys_from_spec() -> bool {
        true
    }

    open spec fn from_spec(other: RGBA<u8>) -> RGBA<u16> {
        other.map_spec(|c: u8| c as u16)
    }
}

/// Widens every component from `u8` to `i16`, keeping its value.
impl From<RGBA<u8>> for RGBA<i16> {
    fn from(other: RGBA<u8>) -> (out: RGBA<i16>) {
        RGBA { r: other.r as i16, g: other.g as i16, b: other.b as i16, a: other.a as i16 }
    }
}

impl vstd::std_specs::convert::FromSpecImpl<RGBA<u8>> for RGBA<i16> {
    open spec fn obeys_from_spec() -> bool {
        true
    }

    open spec fn from_spec(other: RGBA<u8>) -> RGBA<i16> {
        other.map_spec(|c: u8| c as i16)
    }
}

/// Widens every component from `u8` to `u32`, keeping its value.
impl From<RGBA<u8>> for RGBA<u32> {
    fn from(other: RGBA<u8>) -> (out: RGBA<u32>) {
        RGBA { r: other.r as u32, g: other.g as u32, b: other.b as u32, a: other.a as u32 }
    }
}

impl vstd::std_specs::convert::FromSpecImpl<RGBA<u8>> for RGBA<u32> {
    open spec fn obeys_from_spec() -> bool {
        true
    }

    open spec fn from_spec(other: RGBA<u8>) -> RGBA<u32> {
        other.map_spec(|c: u8| c as u32)
    }
}

/// Widens every component from `u8` to `i32`, keeping its value.
impl From<RGBA<u8>> for RGBA<i32> {
    fn from(other: RGBA<u8>) -> (out: RGBA<i32>) {
        RGBA { r: other.r as i32, g: other.g as i32, b: other.b as i32, a: other.a as i32 }
    }
}

impl vstd::std_specs::convert::FromSpecImpl<RGBA<u8>> for RGBA<i32> {
    open spec fn obeys_from_spec() -> bool {
        true
    }

    open spec fn from_spec(other: RGBA<u8>) -> RGBA<i32> {
        other.map_spec(|c: u8| c as i32)
    }
}

/// Widens every component from `u16` to `u32`, keeping its value.
impl From<RGBA<u16>> for RGBA<u32> {
    fn from(other: RGBA<u16>) -> (out: RGBA<u32>) {
        RGBA { r: other.r as u32, g: other.g as u32, b: other.b as u32, a: other.a as u32 }
    }
}

impl vstd::std_specs::convert::FromSpecImpl<RGBA<u16>> for RGBA<u32> {
    open spec fn obeys_from_spec() -> bool {
        true
    }

    open spec fn from_spec(other: RGBA<u16>) -> RGBA<u32> {
        other.map_spec(|c: u16| c as u32)
    }
}

/// Widens every component from `u16` to `i32`, keeping its value.
impl From<RGBA<u16>> for RGBA<i32> {
    fn from(other: RGBA<u16>) -> (out: RGBA<i32>) {
        RGBA { r: other.r as i32, g: other.g as i32, b: other.b as i32, a: other.a as i32 }
    }
}

impl vstd::std_specs::convert::FromSpecImpl<RGBA<u16>> for RGBA<i32> {
    open spec fn obeys_from_spec() -> bool {
        true
    }

    open spec fn from_spec(other: RGBA<u16>) -> RGBA<i32> {
        other.map_spec(|c: u16| c as i32)
    }
}

/// Widens every component from `i16` to `i32`, keeping its value.
impl From<RGBA<i16>> for RGBA<i32> {
    fn from(other: RGBA<i16>) -> (out: RGBA<i32>) {
        RGBA { r: other.r as i32, g: other.g as i32, b: other.b as i32, a: other.a as i32 }
    }
}

impl vstd::std_specs::convert::FromSpecImpl<RGBA<i16>> for RGBA<i32> {
    open spec fn obeys_from_spec() -> bool {
        true
    }

    open spec fn from_spec(other: RGBA<i16>) -> RGBA<i32> {
        other.map_spec(|c: i16| c as i32)
    }
}

/// Widening 8-bit components to 16 bits and then to 32 bits gives what
/// widening them to 32 bits at once gives, with every value kept.
pub proof fn rgba_widening_composes(x: RGBA<u8>)
    ensures
        <RGBA<u32> as FromSpec<RGBA<u16>>>::from_spec(<RGBA<u16> as FromSpec<RGBA<u8>>>::from_spec(x))
            == <RGBA<u32> as FromSpec<RGBA<u8>>>::from_spec(x),
        <RGBA<i32> as FromSpec<RGBA<i16>>>::from_spec(<RGBA<i16> as FromSpec<RGBA<u8>>>::from_spec(x))
            == <RGBA<i32> as FromSpec<RGBA<u8>>>::from_spec(x),
        <RGBA<u32> as FromSpec<RGBA<u8>>>::from_spec(x) == (RGBA {
            r: x.r as u32,
            g: x.g as u32,
            b: x.b as u32,
            a: x.a as u32,
        }),
{
}

/// Converting through `U` and then to `V` gives what converting to `V` at
/// once gives, wherever the component conversions compose that way.
pub proof fn rgba_convert_composes<T: Copy, U: Copy + From<T>, V: From<U> + From<T>>(x: RGBA<T>)
    requires
        forall|t: T| #[trigger] V::from_spec(U::from_spec(t)) == V::from_spec(t),
    ensures
        x.map_spec(|c: T| U::from_spec(c)).map_spec(|c: U| V::from_spec(c)) == x.map_spec(
            |c: T| V::from_spec(c),
        ),
{
    assert(V::from_spec(U::from_spec(x.r)) == V::from_spec(x.r));
    assert(V::from_spec(U::from_spec(x.g)) == V::from_spec(x.g));
    assert(V::from_spec(U::from_spec(x.b)) == V::from_spec(x.b));
    assert(V::from_spec(U::from_spec(x.a)) == V::from_spec(x.a));
}

} // verus!
