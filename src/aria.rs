//! The ARIA roles that require properties, and what each one requires.
use vstd::prelude::*;
use crate::text::str_eq;

verus! {

/// A role that requires some `aria-*` properties.
#[derive(Clone, Copy, Debug, PartialEq, Eq, Structural)]
pub enum AriaRole {
    Checkbox,
    Radio,
    Combobox,
    Tab,
    Slider,
    Scrollbar,
    Heading,
    Option,
}

/// A property that some role requires.
#[derive(Clone, Copy, Debug, PartialEq, Eq, Structural)]
pub enum AriaProp {
    Checked,
    Controls,
    Expanded,
    Selected,
    ValueMax,
    ValueMin,
    ValueNow,
    Orientation,
    Level,
}

/// The role that a word of a `role` value names, if it is one of the table's.
pub open spec fn role_of_word(w: Seq<char>) -> Option<AriaRole> {
    if w == "checkbox"@ {
        Some(AriaRole::Checkbox)
    } else if w == "radio"@ {
        Some(AriaRole::Radio)
    } else if w == "combobox"@ {
        Some(AriaRole::Combobox)
    } else if w == "tab"@ {
        Some(AriaRole::Tab)
    } else if w == "slider"@ {
        Some(AriaRole::Slider)
    } else if w == "scrollbar"@ {
        Some(AriaRole::Scrollbar)
    } else if w == "heading"@ {
        Some(AriaRole::Heading)
    } else if w == "option"@ {
        Some(AriaRole::Option)
    } else {
        None
    }
}

/// The properties a role requires, in the order they are checked.
pub open spec fn required_props(r: AriaRole) -> Seq<AriaProp> {
    match r {
        AriaRole::Checkbox => seq![AriaProp::Checked],
        AriaRole::Radio => seq![AriaProp::Checked],
        AriaRole::Combobox => seq![AriaProp::Controls, AriaProp::Expanded],
        AriaRole::Tab => seq![AriaProp::Selected],
        AriaRole::Slider => seq![AriaProp::ValueMax, AriaProp::ValueMin, AriaProp::ValueNow],
        AriaRole::Scrollbar => seq![
            AriaProp::ValueMax,
            AriaProp::ValueMin,
            AriaProp::ValueNow,
            AriaProp::Orientation,
            AriaProp::Controls,
        ],
        AriaRole::Heading => seq![AriaProp::Level],
        AriaRole::Option => seq![AriaProp::Selected],
    }
}

/// The attribute name of a property.
pub open spec fn prop_name(p: AriaProp) -> Seq<char> {
    match p {
        AriaProp::Checked => "aria-checked"@,
        AriaProp::Controls => "aria-controls"@,
        AriaProp::Expanded => "aria-expanded"@,
        AriaProp::Selected => "aria-selected"@,
        AriaProp::ValueMax => "aria-valuemax"@,
        AriaProp::ValueMin => "aria-valuemin"@,
        AriaProp::ValueNow => "aria-valuenow"@,
        AriaProp::Orientation => "aria-orientation"@,
        AriaProp::Level => "aria-level"@,
    }
}

/// The name of a role as written in a `role` value.
pub open spec fn role_name(r: AriaRole) -> Seq<char> {
    match r {
        AriaRole::Checkbox => "checkbox"@,
        AriaRole::Radio => "radio"@,
        AriaRole::Combobox => "combobox"@,
        AriaRole::Tab => "tab"@,
        AriaRole::Slider => "slider"@,
        AriaRole::Scrollbar => "scrollbar"@,
        AriaRole::Heading => "heading"@,
        AriaRole::Option => "option"@,
    }
}

impl AriaRole {
    /// Looks up a word of a `role` value in the table.
    pub fn from_word(w: &str) -> (r: Option<AriaRole>)
        ensures
            r == role_of_word(w@),
    {
        if str_eq(w, "checkbox") {
            Some(AriaRole::Checkbox)
        } else if str_eq(w, "radio") {
            Some(AriaRole::Radio)
        } else if str_eq(w, "combobox") {
            Some(AriaRole::Combobox)
        } else if str_eq(w, "tab") {
            Some(AriaRole::Tab)
        } else if str_eq(w, "slider") {
            Some(AriaRole::Slider)
        } else if str_eq(w, "scrollbar") {
            Some(AriaRole::Scrollbar)
        } else if str_eq(w, "heading") {
            Some(AriaRole::Heading)
        } else if str_eq(w, "option") {
            Some(AriaRole::Option)
        } else {
            None
        }
    }

    /// The role's name.
    pub fn name(&self) -> (r: &'static str)
        ensures
            r@ == role_name(*self),
    {
        match self {
            AriaRole::Checkbox => "checkbox",
            AriaRole::Radio => "radio",
            AriaRole::Combobox => "combobox",
            AriaRole::Tab => "tab",
            AriaRole::Slider => "slider",
            AriaRole::Scrollbar => "scrollbar",
            AriaRole::Heading => "heading",
            AriaRole::Option => "option",
        }
    }

    /// The properties this role requires.
    pub fn required_props(&self) -> (r: Vec<AriaProp>)
        ensures
            r@ == required_props(*self),
    {
        let r = match self {
            AriaRole::Checkbox => vec![AriaProp::Checked],
            AriaRole::Radio => vec![AriaProp::Checked],
            AriaRole::Combobox => vec![AriaProp::Controls, AriaProp::Expanded],
            AriaRole::Tab => vec![AriaProp::Selected],
            AriaRole::Slider => vec![AriaProp::ValueMax, AriaProp::ValueMin, AriaProp::ValueNow],
            AriaRole::Scrollbar => vec![
                AriaProp::ValueMax,
                AriaProp::ValueMin,
                AriaProp::ValueNow,
                AriaProp::Orientation,
                AriaProp::Controls,
            ],
            AriaRole::Heading => vec![AriaProp::Level],
            AriaRole::Option => vec![AriaProp::Selected],
        };
        assert(r@ == required_props(*self));
        r
    }
}

impl AriaProp {
    /// The attribute name of this property.
    pub fn name(&self) -> (r: &'static str)
        ensures
            r@ == prop_name(*self),
    {
        match self {
            AriaProp::Checked => "aria-checked",
            AriaProp::Controls => "aria-controls",
            AriaProp::Expanded => "aria-expanded",
            AriaProp::Selected => "aria-selected",
            AriaProp::ValueMax => "aria-valuemax",
            AriaProp::ValueMin => "aria-valuemin",
            AriaProp::ValueNow => "aria-valuenow",
            AriaProp::Orientation => "aria-orientation",
            AriaProp::Level => "aria-level",
        }
    }
}

} // verus!
