//! Font descriptions stored as style values.

use vstd::prelude::*;

verus! {

/// A font family selection: a named family or a generic fallback class.
#[derive(Debug)]
pub enum FontFamily {
    /// A family referred to by name.
    Named(String),
    /// A serif fallback family.
    Serif,
    /// A sans-serif fallback family.
    SansSerif,
    /// A cursive fallback family.
    Cursive,
    /// A fantasy fallback family.
    Fantasy,
    /// A monospace fallback family.
    Monospace,
}

impl Clone for FontFamily {
    fn clone(&self) -> (res: FontFamily)
        ensures
            res == *self,
    {
        match self {
            FontFamily::Named(name) => FontFamily::Named(name.clone()),
            FontFamily::Serif => FontFamily::Serif,
            FontFamily::SansSerif => FontFamily::SansSerif,
            FontFamily::Cursive => FontFamily::Cursive,
            FontFamily::Fantasy => FontFamily::Fantasy,
            FontFamily::Monospace => FontFamily::Monospace,
        }
    }
}

/// The weight (boldness) of a font, on the usual hundred-step scale where
/// four hundred is regular and seven hundred is bold.
#[derive(Clone, Copy, Debug, PartialEq, Eq, PartialOrd, Ord, Structural)]
pub struct FontWeight(pub u16);

impl FontWeight {
    /// Returns the regular weight.
    pub fn normal() -> (r: FontWeight)
        ensures
            r == FontWeight(400),
    {
        FontWeight(400)
    }

    /// Returns the bold weight.
    pub fn bold() -> (r: FontWeight)
        ensures
            r == FontWeight(700),
    {
        FontWeight(700)
    }
}

impl Default for FontWeight {
    /// The default weight is regular.
    fn default() -> (r: FontWeight)
        ensures
            r == FontWeight(400),
    {
        FontWeight(400)
    }
}

/// The slant style of a font.
#[derive(Clone, Copy, Debug, PartialEq, Eq, Structural)]
pub enum FontStyle {
    /// Upright glyphs.
    Normal,
    /// Cursive-styled glyphs.
    Italic,
    /// Slanted upright glyphs.
    Oblique,
}

impl Default for FontStyle {
    /// The default style is upright.
    fn default() -> (r: FontStyle)
        ensures
            r == FontStyle::Normal,
    {
        FontStyle::Normal
    }
}

/// An ordered list of font families, tried first to last.
#[derive(Debug)]
pub struct FontFamilyList {
    /// The families, in preference order.
    pub families: Vec<FontFamily>,
}

impl View for FontFamilyList {
    type V = Seq<FontFamily>;

    open spec fn view(&self) -> Seq<FontFamily> {
        self.families@
    }
}

impl FontFamilyList {
    /// Returns an empty list.
    pub fn new() -> (r: FontFamilyList)
        ensures
            r@ == Seq::<FontFamily>::empty(),
    {
        FontFamilyList { families: Vec::new() }
    }

    /// Returns a list holding `families` in order.
    pub fn from_families(families: Vec<FontFamily>) -> (r: FontFamilyList)
        ensures
            r@ == families@,
    {
        FontFamilyList { families }
    }

    /// Pushes `family` on the end of this list.
    pub fn push(&mut self, family: FontFamily)
        ensures
            final(self)@ == old(self)@.push(family),
    {
        self.families.push(family);
    }

    /// Returns how many families the list holds.
    pub fn len(&self) -> (r: usize)
        ensures
            r == self@.len(),
    {
        self.families.len()
    }

    /// Returns the family at `index`.
    pub fn get(&self, index: usize) -> (r: &FontFamily)
        requires
            index < self@.len(),
        ensures
            *r == self@[index as int],
    {
        &self.families[index]
    }
}

impl Clone for FontFamilyList {
    fn clone(&self) -> (res: FontFamilyList)
        ensures
            res@ == self@,
    {
        let mut families: Vec<FontFamily> = Vec::new();
        let mut i: usize = 0;
        while i < self.families.len()
            invariant
                i <= self.families@.len(),
                families@ =~= self.families@.take(i as int),
            decreases self.families@.len() - i,
        {
            families.push(self.families[i].clone());
            proof {
                assert(families@ =~= self.families@.take(i as int + 1));
            }
            i = i + 1;
        }
        proof {
            assert(families@ =~= self.families@);
        }
        FontFamilyList { families }
    }
}

impl Default for FontFamilyList {
    /// The default list is empty.
    fn default() -> (r: FontFamilyList)
        ensures
            r@ == Seq::<FontFamily>::empty(),
    {
        FontFamilyList::new()
    }
}

} // verus!
