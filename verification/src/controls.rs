//! The choices that the editor offers: the active tool, the plane of a
//! reflection and the axis of a body of rotation, with the names it shows.

use vstd::prelude::*;
use vstd::string::StringExecFns;

verus! {

/// The tool with which the user acts on the selected model.
#[derive(Debug, PartialEq, Eq, Structural, Clone, Copy)]
pub enum Instrument {
    Move3D,
    Rotate3D,
    Scale3D,
    RotateAroundX,
    RotateAroundY,
    RotateAroundZ,
    RotateAroundCustomLine,
}

impl Default for Instrument {
    /// Moving is the tool at start.
    fn default() -> (i: Self)
        ensures
            i == Instrument::Move3D,
    {
        Instrument::Move3D
    }
}

/// The description of a tool that the editor shows.
pub open spec fn instrument_text(i: Instrument) -> Seq<char> {
    match i {
        Instrument::Move3D => "переместить 3D модель"@,
        Instrument::Rotate3D => "повернуть 3D модель"@,
        Instrument::Scale3D => "масштабировать 3D модель"@,
        Instrument::RotateAroundX => "вращать вокруг оси X"@,
        Instrument::RotateAroundY => "вращать вокруг оси Y"@,
        Instrument::RotateAroundZ => "вращать вокруг оси Z"@,
        Instrument::RotateAroundCustomLine => "вращать вокруг произвольной линии"@,
    }
}

impl Instrument {
    /// The description of the tool, as [`instrument_text`] gives it.
    pub fn to_string(&self) -> (s: String)
        ensures
            s@ == instrument_text(*self),
    {
        match self {
            Instrument::Move3D => String::from_str("переместить 3D модель"),
            Instrument::Rotate3D => String::from_str("повернуть 3D модель"),
            Instrument::Scale3D => String::from_str("масштабировать 3D модель"),
            Instrument::RotateAroundX => String::from_str("вращать вокруг оси X"),
            Instrument::RotateAroundY => String::from_str("вращать вокруг оси Y"),
            Instrument::RotateAroundZ => String::from_str("вращать вокруг оси Z"),
            Instrument::RotateAroundCustomLine => String::from_str(
                "вращать вокруг произвольной линии",
            ),
        }
    }
}

/// A coordinate plane in which a model is mirrored.
#[derive(Debug, PartialEq, Eq, Structural, Clone, Copy)]
pub enum ReflectionPlane {
    XY,
    XZ,
    YZ,
}

/// A coordinate axis through the origin.
#[derive(Debug, PartialEq, Eq, Structural, Clone, Copy)]
pub enum CenterAxis {
    X,
    Y,
    Z,
}

/// The axis of a body of rotation: a coordinate axis, or a line the user gives.
#[derive(Debug, PartialEq, Eq, Structural, Clone, Copy)]
pub enum AxisType {
    Center(CenterAxis),
    Custom,
}

/// The name of a coordinate axis.
pub open spec fn center_axis_name(a: CenterAxis) -> Seq<char> {
    match a {
        CenterAxis::X => "Ось X"@,
        CenterAxis::Y => "Ось Y"@,
        CenterAxis::Z => "Ось Z"@,
    }
}

/// The name of an axis of rotation.
pub open spec fn axis_type_name(a: AxisType) -> Seq<char> {
    match a {
        AxisType::Center(c) => center_axis_name(c),
        AxisType::Custom => "Произвольная ось"@,
    }
}

impl CenterAxis {
    /// The name of the axis, as [`center_axis_name`] gives it.
    pub fn name(&self) -> (s: &'static str)
        ensures
            s@ == center_axis_name(*self),
    {
        match self {
            CenterAxis::X => "Ось X",
            CenterAxis::Y => "Ось Y",
            CenterAxis::Z => "Ось Z",
        }
    }
}

impl AxisType {
    /// The name of the axis, as [`axis_type_name`] gives it.
    pub fn name(&self) -> (s: String)
        ensures
            s@ == axis_type_name(*self),
    {
        match self {
            AxisType::Center(CenterAxis::X) => String::from_str("Ось X"),
            AxisType::Center(CenterAxis::Y) => String::from_str("Ось Y"),
            AxisType::Center(CenterAxis::Z) => String::from_str("Ось Z"),
            AxisType::Custom => String::from_str("Произвольная ось"),
        }
    }
}

/// A coordinate axis is named as the axis of rotation that it is.
pub proof fn law_axis_names_agree(c: CenterAxis)
    ensures
        axis_type_name(AxisType::Center(c)) == center_axis_name(c),
{
}

} // verus!
