use vstd::prelude::*;
use vstd::std_specs::ops::{AddSpec, DivSpec, MulSpec, SubSpec};

use crate::rgb::RGB;
use crate::rgba::RGBA;

verus! {

/// `+` component by component.
impl<T: Copy + core::ops::Add<Output = T>> core::ops::Add for RGB<T> {
    type Output = RGB<T>;

    fn add(self, rhs: RGB<T>) -> (out: RGB<T>) {
        RGB { r: self.r + rhs.r, g: self.g + rhs.g, b: self.b + rhs.b }
    }
}

impl<T: Copy + core::ops::Add<Output = T>> vstd::std_specs::ops::AddSpecImpl for RGB<T> {
    open spec fn obeys_add_spec() -> bool {
        <T as AddSpec>::obeys_add_spec()
    }

    open spec fn add_req(self, rhs: RGB<T>) -> bool {
        &&& self.r.add_req(rhs.r)
        &&& self.g.add_req(rhs.g)
        &&& self.b.add_req(rhs.b)
    }

    open spec fn add_spec(self, rhs: RGB<T>) -> RGB<T> {
        RGB { r: self.r.add_spec(rhs.r), g: self.g.add_spec(rhs.g), b: self.b.add_spec(rhs.b) }
    }
}

/// `+` of one value applied to every component.
impl<T: Copy + core::ops::Add<Output = T>> core::ops::Add<T> for RGB<T> {
    type Output = RGB<T>;

    fn add(self, rhs: T) -> (out: RGB<T>) {
        RGB { r: self.r + rhs, g: self.g + rhs, b: self.b + rhs }
    }
}

impl<T: Copy + core::ops::Add<Output = T>> vstd::std_specs::ops::AddSpecImpl<T> for RGB<T> {
    open spec fn obeys_add_spec() -> bool {
        <T as AddSpec>::obeys_add_spec()
    }

    open spec fn add_req(self, rhs: T) -> bool {
        &&& self.r.add_req(rhs)
        &&& self.g.add_req(rhs)
        &&& self.b.add_req(rhs)
    }

    open spec fn add_spec(self, rhs: T) -> RGB<T> {
        RGB { r: self.r.add_spec(rhs), g: self.g.add_spec(rhs), b: self.b.add_spec(rhs) }
    }
}

/// `-` component by component.
impl<T: Copy + core::ops::Sub<Output = T>> core::ops::Sub for RGB<T> {
    type Output = RGB<T>;

    fn sub(self, rhs: RGB<T>) -> (out: RGB<T>) {
        RGB { r: self.r - rhs.r, g: self.g - rhs.g, b: self.b - rhs.b }
    }
}

impl<T: Copy + core::ops::Sub<Output = T>> vstd::std_specs::ops::SubSpecImpl for RGB<T> {
    open spec fn obeys_sub_spec() -> bool {
        <T as SubSpec>::obeys_sub_spec()
    }

    open spec fn sub_req(self, rhs: RGB<T>) -> bool {
        &&& self.r.sub_req(rhs.r)
        &&& self.g.sub_req(rhs.g)
        &&& self.b.sub_req(rhs.b)
    }

    open spec fn sub_spec(self, rhs: RGB<T>) -> RGB<T> {
        RGB { r: self.r.sub_spec(rhs.r), g: self.g.sub_spec(rhs.g), b: self.b.sub_spec(rhs.b) }
    }
}

/// `-` of one value applied to every component.
impl<T: Copy + core::ops::Sub<Output = T>> core::ops::Sub<T> for RGB<T> {
    type Output = RGB<T>;

    fn sub(self, rhs: T) -> (out: RGB<T>) {
        RGB { r: self.r - rhs, g: self.g - rhs, b: self.b - rhs }
    }
}

impl<T: Copy + core::ops::Sub<Output = T>> vstd::std_specs::ops::SubSpecImpl<T> for RGB<T> {
    open spec fn obeys_sub_spec() -> bool {
        <T as SubSpec>::obeys_sub_spec()
    }

    open spec fn sub_req(self, rhs: T) -> bool {
        &&& self.r.sub_req(rhs)
        &&& self.g.sub_req(rhs)
        &&& self.b.sub_req(rhs)
    }

    open spec fn sub_spec(self, rhs: T) -> RGB<T> {
        RGB { r: self.r.sub_spec(rhs), g: self.g.sub_spec(rhs), b: self.b.sub_spec(rhs) }
    }
}

/// `*` component by component.
impl<T: Copy + core::ops::Mul<Output = T>> core::ops::Mul for RGB<T> {
    type Output = RGB<T>;

    fn mul(self, rhs: RGB<T>) -> (out: RGB<T>) {
        RGB { r: self.r * rhs.r, g: self.g * rhs.g, b: self.b * rhs.b }
    }
}

impl<T: Copy + core::ops::Mul<Output = T>> vstd::std_specs::ops::MulSpecImpl for RGB<T> {
    open spec fn obeys_mul_spec() -> bool {
        <T as MulSpec>::obeys_mul_spec()
    }

    open spec fn mul_req(self, rhs: RGB<T>) -> bool {
        &&& self.r.mul_req(rhs.r)
        &&& self.g.mul_req(rhs.g)
        &&& self.b.mul_req(rhs.b)
    }

    open spec fn mul_spec(self, rhs: RGB<T>) -> RGB<T> {
        RGB { r: self.r.mul_spec(rhs.r), g: self.g.mul_spec(rhs.g), b: self.b.mul_spec(rhs.b) }
    }
}

/// `*` of one value applied to every component.
impl<T: Copy + core::ops::Mul<Output = T>> core::ops::Mul<T> for RGB<T> {
    type Output = RGB<T>;

    fn mul(self, rhs: T) -> (out: RGB<T>) {
        RGB { r: self.r * rhs, g: self.g * rhs, b: self.b * rhs }
    }
}

impl<T: Copy + core::ops::Mul<Output = T>> vstd::std_specs::ops::MulSpecImpl<T> for RGB<T> {
    open spec fn obeys_mul_spec() -> bool {
        <T as MulSpec>::obeys_mul_spec()
    }

    open spec fn mul_req(self, rhs: T) -> bool {
        &&& self.r.mul_req(rhs)
        &&& self.g.mul_req(rhs)
        &&& self.b.mul_req(rhs)
    }

    open spec fn mul_spec(self, rhs: T) -> RGB<T> {
        RGB { r: self.r.mul_spec(rhs), g: self.g.mul_spec(rhs), b: self.b.mul_spec(rhs) }
    }
}

/// `/` component by component.
impl<T: Copy + core::ops::Div<Output = T>> core::ops::Div for RGB<T> {
    type Output = RGB<T>;

    fn div(self, rhs: RGB<T>) -> (out: RGB<T>) {
        RGB { r: self.r / rhs.r, g: self.g / rhs.g, b: self.b / rhs.b }
    }
}

impl<T: Copy + core::ops::Div<Output = T>> vstd::std_specs::ops::DivSpecImpl for RGB<T> {
    open spec fn obeys_div_spec() -> bool {
        <T as DivSpec>::obeys_div_spec()
    }

    open spec fn div_req(self, rhs: RGB<T>) -> bool {
        &&& self.r.div_req(rhs.r)
        &&& self.g.div_req(rhs.g)
        &&& self.b.div_req(rhs.b)
    }

    open spec fn div_spec(self, rhs: RGB<T>) -> RGB<T> {
        RGB { r: self.r.div_spec(rhs.r), g: self.g.div_spec(rhs.g), b: self.b.div_spec(rhs.b) }
    }
}

/// `/` of one value applied to every component.
impl<T: Copy + core::ops::Div<Output = T>> core::ops::Div<T> for RGB<T> {
    type Output = RGB<T>;

    fn div(self, rhs: T) -> (out: RGB<T>) {
        RGB { r: self.r / rhs, g: self.g / rhs, b: self.b / rhs }
    }
}

impl<T: Copy + core::ops::Div<Output = T>> vstd::std_specs::ops::DivSpecImpl<T> for RGB<T> {
    open spec fn obeys_div_spec() -> bool {
        <T as DivSpec>::obeys_div_spec()
    }

    open spec fn div_req(self, rhs: T) -> bool {
        &&& self.r.div_req(rhs)
        &&& self.g.div_req(rhs)
        &&& self.b.div_req(rhs)
    }

    open spec fn div_spec(self, rhs: T) -> RGB<T> {
        RGB { r: self.r.div_spec(rhs), g: self.g.div_spec(rhs), b: self.b.div_spec(rhs) }
    }
}

/// Where the component arithmetic is exact, subtracting `b` and adding it
/// back gives `a` again.
pub proof fn rgb_sub_then_add<T: Copy + core::ops::Add<Output = T> + core::ops::Sub<Output = T>>(
    a: RGB<T>,
    b: RGB<T>,
)
    requires
        a.r.sub_spec(b.r).add_spec(b.r) == a.r,
        a.g.sub_spec(b.g).add_spec(b.g) == a.g,
        a.b.sub_spec(b.b).add_spec(b.b) == a.b,
    ensures
        <RGB<T> as AddSpec<RGB<T>>>::add_spec(<RGB<T> as SubSpec<RGB<T>>>::sub_spec(a, b), b) == a,
{
}

/// For 32-bit signed components, `(a - b) + b` is defined and equals `a`
/// whenever no difference overflows.
pub proof fn rgb_sub_then_add_i32(a: RGB<i32>, b: RGB<i32>)
    requires
        i32::MIN <= a.r - b.r <= i32::MAX,
        i32::MIN <= a.g - b.g <= i32::MAX,
        i32::MIN <= a.b - b.b <= i32::MAX,
    ensures
        <RGB<i32> as SubSpec<RGB<i32>>>::sub_req(a, b),
        <RGB<i32> as AddSpec<RGB<i32>>>::add_req(<RGB<i32> as SubSpec<RGB<i32>>>::sub_spec(a, b), b),
        <RGB<i32> as AddSpec<RGB<i32>>>::add_spec(<RGB<i32> as SubSpec<RGB<i32>>>::sub_spec(a, b), b) == a,
{
}

/// `+` component by component.
impl<T: Copy + core::ops::Add<Output = T>> core::ops::Add for RGBA<T> {
    type Output = RGBA<T>;

    fn add(self, rhs: RGBA<T>) -> (out: RGBA<T>) {
        RGBA { r: self.r + rhs.r, g: self.g + rhs.g, b: self.b + rhs.b, a: self.a + rhs.a }
    }
}

impl<T: Copy + core::ops::Add<Output = T>> vstd::std_specs::ops::AddSpecImpl for RGBA<T> {
    open spec fn obeys_add_spec() -> bool {
        <T as AddSpec>::obeys_add_spec()
    }

    open spec fn add_req(self, rhs: RGBA<T>) -> bool {
        &&& self.r.add_req(rhs.r)
        &&& self.g.add_req(rhs.g)
        &&& self.b.add_req(rhs.b)
        &&& self.a.add_req(rhs.a)
    }

    open spec fn add_spec(self, rhs: RGBA<T>) -> RGBA<T> {
        RGBA { r: self.r.add_spec(rhs.r), g: self.g.add_spec(rhs.g), b: self.b.add_spec(rhs.b), a: self.a.add_spec(rhs.a) }
    }
}

/// `+` of one value applied to every component.
impl<T: Copy + core::ops::Add<Output = T>> core::ops::Add<T> for RGBA<T> {
    type Output = RGBA<T>;

    fn add(self, rhs: T) -> (out: RGBA<T>) {
        RGBA { r: self.r + rhs, g: self.g + rhs, b: self.b + rhs, a: self.a + rhs }
    }
}

impl<T: Copy + core::ops::Add<Output = T>> vstd::std_specs::ops::AddSpecImpl<T> for RGBA<T> {
    open spec fn obeys_add_spec() -> bool {
        <T as AddSpec>::obeys_add_spec()
    }

    open spec fn add_req(self, rhs: T) -> bool {
        &&& self.r.add_req(rhs)
        &&& self.g.add_req(rhs)
        &&& self.b.add_req(rhs)
        &&& self.a.add_req(rhs)
    }

    open spec fn add_spec(self, rhs: T) -> RGBA<T> {
        RGBA { r: self.r.add_spec(rhs), g: self.g.add_spec(rhs), b: self.b.add_spec(rhs), a: self.a.add_spec(rhs) }
    }
}

/// `-` component by component.
impl<T: Copy + core::ops::Sub<Output = T>> core::ops::Sub for RGBA<T> {
    type Output = RGBA<T>;

    fn sub(self, rhs: RGBA<T>) -> (out: RGBA<T>) {
        RGBA { r: self.r - rhs.r, g: self.g - rhs.g, b: self.b - rhs.b, a: self.a - rhs.a }
    }
}

impl<T: Copy + core::ops::Sub<Output = T>> vstd::std_specs::ops::SubSpecImpl for RGBA<T> {
    open spec fn obeys_sub_spec() -> bool {
        <T as SubSpec>::obeys_sub_spec()
    }

    open spec fn sub_req(self, rhs: RGBA<T>) -> bool {
        &&& self.r.sub_req(rhs.r)
        &&& self.g.sub_req(rhs.g)
        &&& self.b.sub_req(rhs.b)
        &&& self.a.sub_req(rhs.a)
    }

    open spec fn sub_spec(self, rhs: RGBA<T>) -> RGBA<T> {
        RGBA { r: self.r.sub_spec(rhs.r), g: self.g.sub_spec(rhs.g), b: self.b.sub_spec(rhs.b), a: self.a.sub_spec(rhs.a) }
    }
}

/// `-` of one value applied to every component.
impl<T: Copy + core::ops::Sub<Output = T>> core::ops::Sub<T> for RGBA<T> {
    type Output = RGBA<T>;

    fn sub(self, rhs: T) -> (out: RGBA<T>) {
        RGBA { r: self.r - rhs, g: self.g - rhs, b: self.b - rhs, a: self.a - rhs }
    }
}

impl<T: Copy + core::ops::Sub<Output = T>> vstd::std_specs::ops::SubSpecImpl<T> for RGBA<T> {
    open spec fn obeys_sub_spec() -> bool {
        <T as SubSpec>::obeys_sub_spec()
    }

    open spec fn sub_req(self, rhs: T) -> bool {
        &&& self.r.sub_req(rhs)
        &&& self.g.sub_req(rhs)
        &&& self.b.sub_req(rhs)
        &&& self.a.sub_req(rhs)
    }

    open spec fn sub_spec(self, rhs: T) -> RGBA<T> {
        RGBA { r: self.r.sub_spec(rhs), g: self.g.sub_spec(rhs), b: self.b.sub_spec(rhs), a: self.a.sub_spec(rhs) }
    }
}

/// `*` component by component.
impl<T: Copy + core::ops::Mul<Output = T>> core::ops::Mul for RGBA<T> {
    type Output = RGBA<T>;

    fn mul(self, rhs: RGBA<T>) -> (out: RGBA<T>) {
        RGBA { r: self.r * rhs.r, g: self.g * rhs.g, b: self.b * rhs.b, a: self.a * rhs.a }
    }
}

impl<T: Copy + core::ops::Mul<Output = T>> vstd::std_specs::ops::MulSpecImpl for RGBA<T> {
    open spec fn obeys_mul_spec() -> bool {
        <T as MulSpec>::obeys_mul_spec()
    }

    open spec fn mul_req(self, rhs: RGBA<T>) -> bool {
        &&& self.r.mul_req(rhs.r)
        &&& self.g.mul_req(rhs.g)
        &&& self.b.mul_req(rhs.b)
        &&& self.a.mul_req(rhs.a)
    }

    open spec fn mul_spec(self, rhs: RGBA<T>) -> RGBA<T> {
        RGBA { r: self.r.mul_spec(rhs.r), g: self.g.mul_spec(rhs.g), b: self.b.mul_spec(rhs.b), a: self.a.mul_spec(rhs.a) }
    }
}

/// `*` of one value applied to every component.
impl<T: Copy + core::ops::Mul<Output = T>> core::ops::Mul<T> for RGBA<T> {
    type Output = RGBA<T>;

    fn mul(self, rhs: T) -> (out: RGBA<T>) {
        RGBA { r: self.r * rhs, g: self.g * rhs, b: self.b * rhs, a: self.a * rhs }
    }
}

impl<T: Copy + core::ops::Mul<Output = T>> vstd::std_specs::ops::MulSpecImpl<T> for RGBA<T> {
    open spec fn obeys_mul_spec() -> bool {
        <T as MulSpec>::obeys_mul_spec()
    }

    open spec fn mul_req(self, rhs: T) -> bool {
        &&& self.r.mul_req(rhs)
        &&& self.g.mul_req(rhs)
        &&& self.b.mul_req(rhs)
        &&& self.a.mul_req(rhs)
    }

    open spec fn mul_spec(self, rhs: T) -> RGBA<T> {
        RGBA { r: self.r.mul_spec(rhs), g: self.g.mul_spec(rhs), b: self.b.mul_spec(rhs), a: self.a.mul_spec(rhs) }
    }
}

/// `/` component by component.
impl<T: Copy + core::ops::Div<Output = T>> core::ops::Div for RGBA<T> {
    type Output = RGBA<T>;

    fn div(self, rhs: RGBA<T>) -> (out: RGBA<T>) {
        RGBA { r: self.r / rhs.r, g: self.g / rhs.g, b: self.b / rhs.b, a: self.a / rhs.a }
    }
}

impl<T: Copy + core::ops::Div<Output = T>> vstd::std_specs::ops::DivSpecImpl for RGBA<T> {
    open spec fn obeys_div_spec() -> bool {
        <T as DivSpec>::obeys_div_spec()
    }

    open spec fn div_req(self, rhs: RGBA<T>) -> bool {
        &&& self.r.div_req(rhs.r)
        &&& self.g.div_req(rhs.g)
        &&& self.b.div_req(rhs.b)
        &&& self.a.div_req(rhs.a)
    }

    open spec fn div_spec(self, rhs: RGBA<T>) -> RGBA<T> {
        RGBA { r: self.r.div_spec(rhs.r), g: self.g.div_spec(rhs.g), b: self.b.div_spec(rhs.b), a: self.a.div_spec(rhs.a) }
    }
}

/// `/` of one value applied to every component.
impl<T: Copy + core::ops::Div<Output = T>> core::ops::Div<T> for RGBA<T> {
    type Output = RGBA<T>;

    fn div(self, rhs: T) -> (out: RGBA<T>) {
        RGBA { r: self.r / rhs, g: self.g / rhs, b: self.b / rhs, a: self.a / rhs }
    }
}

impl<T: Copy + core::ops::Div<Output = T>> vstd::std_specs::ops::DivSpecImpl<T> for RGBA<T> {
    open spec fn obeys_div_spec() -> bool {
        <T as DivSpec>::obeys_div_spec()
    }

    open spec fn div_req(self, rhs: T) -> bool {
        &&& self.r.div_req(rhs)
        &&& self.g.div_req(rhs)
        &&& self.b.div_req(rhs)
        &&& self.a.div_req(rhs)
    }

    open spec fn div_spec(self, rhs: T) -> RGBA<T> {
        RGBA { r: self.r.div_spec(rhs), g: self.g.div_spec(rhs), b: self.b.div_spec(rhs), a: self.a.div_spec(rhs) }
    }
}

/// Where the component arithmetic is exact, subtracting `b` and adding it
/// back gives `a` again.
pub proof fn rgba_sub_then_add<T: Copy + core::ops::Add<Output = T> + core::ops::Sub<Output = T>>(
    a: RGBA<T>,
    b: RGBA<T>,
)
    requires
        a.r.sub_spec(b.r).add_spec(b.r) == a.r,
        a.g.sub_spec(b.g).add_spec(b.g) == a.g,
        a.b.sub_spec(b.b).add_spec(b.b) == a.b,
        a.a.sub_spec(b.a).add_spec(b.a) == a.a,
    ensures
        <RGBA<T> as AddSpec<RGBA<T>>>::add_spec(<RGBA<T> as SubSpec<RGBA<T>>>::sub_spec(a, b), b) == a,
{
}

/// For 32-bit signed components, `(a - b) + b` is defined and equals `a`
/// whenever no difference overflows.
pub proof fn rgba_sub_then_add_i32(a: RGBA<i32>, b: RGBA<i32>)
    requires
        i32::MIN <= a.r - b.r <= i32::MAX,
        i32::MIN <= a.g - b.g <= i32::MAX,
        i32::MIN <= a.b - b.b <= i32::MAX,
        i32::MIN <= a.a - b.a <= i32::MAX,
    ensures
        <RGBA<i32> as SubSpec<RGBA<i32>>>::sub_req(a, b),
        <RGBA<i32> as AddSpec<RGBA<i32>>>::add_req(<RGBA<i32> as SubSpec<RGBA<i32>>>::sub_spec(a, b), b),
        <RGBA<i32> as AddSpec<RGBA<i32>>>::add_spec(<RGBA<i32> as SubSpec<RGBA<i32>>>::sub_spec(a, b), b) == a,
{
}

} // verus!
