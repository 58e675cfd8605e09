use vstd::prelude::*;

verus! {

/// An RGB color with each channel in thousandths: `150` stands for the
/// renderer's `0.15`. Holding the palette as integers keeps it exact.
#[derive(Clone, Copy, PartialEq, Eq, Structural, Debug)]
pub struct Rgb {
    pub red: u16,
    pub green: u16,
    pub blue: u16,
}

impl Rgb {
    /// Every channel stays within one unit of intensity.
    pub open spec fn wf(self) -> bool {
        self.red <= 1000 && self.green <= 1000 && self.blue <= 1000
    }

    pub fn gray(level: u16) -> (r: Rgb)
        ensures
            r == (Rgb { red: level, green: level, blue: level }),
    {
        Rgb { red: level, green: level, blue: level }
    }
}

/// The background of an idle button: gray at 0.15 intensity.
pub open spec fn spec_normal_color() -> Rgb {
    Rgb { red: 150, green: 150, blue: 150 }
}

/// The background of a hovered button: gray at 0.25 intensity.
pub open spec fn spec_hovered_color() -> Rgb {
    Rgb { red: 250, green: 250, blue: 250 }
}

/// The color of button label text: gray at 0.9 intensity.
pub open spec fn spec_text_color() -> Rgb {
    Rgb { red: 900, green: 900, blue: 900 }
}

/// The process-wide palette of button backgrounds, fixed at startup.
#[derive(Clone, Copy, PartialEq, Eq, Structural, Debug)]
pub struct ButtonColors {
    pub normal: Rgb,
    pub hovered: Rgb,
}

pub open spec fn spec_button_colors() -> ButtonColors {
    ButtonColors { normal: spec_normal_color(), hovered: spec_hovered_color() }
}

impl ButtonColors {
    pub open spec fn wf(self) -> bool {
        self.normal.wf() && self.hovered.wf()
    }
}

impl Default for ButtonColors {
    /// The palette the application starts with.
    fn default() -> (r: Self)
        ensures
            r == spec_button_colors(),
            r.wf(),
    {
        ButtonColors { normal: Rgb::gray(150), hovered: Rgb::gray(250) }
    }
}

} // verus!
