//! Identifiers of the colour palettes the interface can use.
use vstd::prelude::*;

verus! {

/// A colour palette.
#[derive(PartialEq, Eq, Structural, Clone, Copy, Debug)]
pub enum PaletteType {
    CatppuccinMocha,
}

/// The name of a palette as the theme picker lists it.
pub open spec fn palette_name(p: PaletteType) -> Seq<char> {
    match p {
        PaletteType::CatppuccinMocha => "Catppuccin Mocha"@,
    }
}

impl PaletteType {
    /// The name of the palette (see `palette_name`).
    pub fn label(&self) -> (res: &'static str)
        ensures
            res@ == palette_name(*self),
    {
        match self {
            PaletteType::CatppuccinMocha => "Catppuccin Mocha",
        }
    }

    /// Every palette, in the order the theme picker lists them.
    pub fn all() -> (res: Vec<PaletteType>)
        ensures
            res@ == seq![PaletteType::CatppuccinMocha],
    {
        vec![PaletteType::CatppuccinMocha]
    }
}

} // verus!
