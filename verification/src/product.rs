//! The catalogue of products the launcher can manage.

use vstd::prelude::*;

verus! {

/// A product the launcher knows about: the launcher itself, or a game it
/// can download and run.
#[derive(PartialEq, Eq, Structural, Copy, Clone, Debug)]
pub enum Product {
    ArcanaLauncher,
    TwelveKnightsVigil,
}

impl Product {
    /// Every product, in a fixed order.
    pub fn all() -> (r: [Product; 2])
        ensures
            r@ =~= seq![Product::ArcanaLauncher, Product::TwelveKnightsVigil],
    {
        [Product::ArcanaLauncher, Product::TwelveKnightsVigil]
    }

    /// The name shown to users for this product.
    pub fn display_name(&self) -> (r: &str)
        ensures
            *self == Product::ArcanaLauncher ==> r@ == "Arcana Launcher"@,
            *self == Product::TwelveKnightsVigil ==> r@ == "Twelve Knights Vigil"@,
    {
        match *self {
            Product::ArcanaLauncher => "Arcana Launcher",
            Product::TwelveKnightsVigil => "Twelve Knights Vigil",
        }
    }
}

} // verus!
