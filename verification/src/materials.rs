//! The material catalog: one enumerated variant per obtainable material
//! in each category, each carrying its physical coefficients and its
//! price.
//!
//! Coefficients are exact in fixed decimal scales: dimensionless optical
//! coefficients in ten-thousandths (`COEFF_SCALE`), prices per square or
//! cubic metre in ten-billionths of a dollar (`PRICE_SCALE`), thermal
//! conductivities in hundred-billionths of a W/(m K)
//! (`CONDUCTIVITY_SCALE`), and canonical shell thicknesses in
//! micrometres.

use vstd::prelude::*;

verus! {

/// Scale of dimensionless optical coefficients: ten-thousandths.
pub const COEFF_SCALE: i64 = 10_000;

/// Scale of prices per square or cubic metre: ten-billionths of a
/// dollar.
pub const PRICE_SCALE: i64 = 10_000_000_000;

/// Scale of thermal conductivities: hundred-billionths of a W/(m K).
pub const CONDUCTIVITY_SCALE: i64 = 100_000_000_000;

/// Absorbing coating of the cooking chamber.
#[derive(Clone, Copy, Debug, PartialEq, Eq, Hash, Structural)]
pub enum Absorber {
    BlackConstructionPaper,
    ThurmaloxSolarCoating,
}

impl Absorber {
    /// Solar absorptivity, in ten-thousandths.
    pub open spec fn spec_absoptivity(self) -> int {
        match self {
            Absorber::BlackConstructionPaper => 9000,
            Absorber::ThurmaloxSolarCoating => 9600,
        }
    }

    /// Solar absorptivity, in ten-thousandths (`COEFF_SCALE`).
    pub fn absoptivity(&self) -> (r: i64)
        ensures
            r == self.spec_absoptivity(),
    {
        match self {
            Absorber::BlackConstructionPaper => 9000,
            Absorber::ThurmaloxSolarCoating => 9600,
        }
    }

    /// Price per square metre, in ten-billionths of a dollar.
    pub open spec fn spec_price_per_m2(self) -> int {
        match self {
            Absorber::BlackConstructionPaper => 8_300_000_000,
            Absorber::ThurmaloxSolarCoating => 389_500_000_000,
        }
    }

    /// Price per square metre, in ten-billionths of a dollar
    /// (`PRICE_SCALE`).
    pub fn price_per_m2(&self) -> (r: i64)
        ensures
            r == self.spec_price_per_m2(),
    {
        match self {
            Absorber::BlackConstructionPaper => 8_300_000_000,
            Absorber::ThurmaloxSolarCoating => 389_500_000_000,
        }
    }

    /// The cost of covering `area_um2` square micrometres, exact at
    /// `PRICE_SCALE` per square metre times square micrometres.
    pub fn cost_per_m2(&self, area_um2: i64) -> (r: i128)
        ensures
            r == self.spec_price_per_m2() * area_um2,
    {
        mul_price_area(self.price_per_m2(), area_um2)
    }

    /// The variant at position `i` of catalog order.
    pub open spec fn spec_from_index(i: int) -> Absorber {
        if i == 0 {
            Absorber::BlackConstructionPaper
        } else {
            Absorber::ThurmaloxSolarCoating
        }
    }

    /// This variant's position in catalog order.
    pub open spec fn spec_index(self) -> int {
        match self {
            Absorber::BlackConstructionPaper => 0,
            Absorber::ThurmaloxSolarCoating => 1,
        }
    }

    /// The variant at position `i` of catalog order.
    pub(crate) fn from_index(i: usize) -> (r: Absorber)
        requires
            i < 2,
        ensures
            r == Absorber::spec_from_index(i as int),
    {
        if i == 0 {
            Absorber::BlackConstructionPaper
        } else {
            Absorber::ThurmaloxSolarCoating
        }
    }

    /// The material's display name.
    pub fn label(&self) -> (r: &'static str)
        ensures
            self is BlackConstructionPaper ==> r@ == "Black Construction Paper"@,
            self is ThurmaloxSolarCoating ==> r@ == "Thurmalox Solar Coating"@,
    {
        match self {
            Absorber::BlackConstructionPaper => "Black Construction Paper",
            Absorber::ThurmaloxSolarCoating => "Thurmalox Solar Coating",
        }
    }

    /// Every catalog variant of this category, in catalog order.
    pub fn variants() -> (r: Vec<Absorber>)
        ensures
            r@ == seq![Absorber::BlackConstructionPaper, Absorber::ThurmaloxSolarCoating],
    {
        let mut v: Vec<Absorber> = Vec::new();
        v.push(Absorber::BlackConstructionPaper);
        v.push(Absorber::ThurmaloxSolarCoating);
        proof {
            assert(v@ =~= seq![
                Absorber::BlackConstructionPaper,
                Absorber::ThurmaloxSolarCoating,
            ]);
        }
        v
    }
}

/// Reflective surface of the booster reflectors.
#[derive(Clone, Copy, Debug, PartialEq, Eq, Hash, Structural)]
pub enum ReflectiveMaterial {
    AluminumFoil,
    TinFoil,
    MirrorSheets,
    ReflectiveTape,
    SReflect2000,
    SilverReflectiveVinyl,
}

impl ReflectiveMaterial {
    /// Reflectivity, in ten-thousandths.
    pub open spec fn spec_reflectivity(self) -> int {
        match self {
            ReflectiveMaterial::AluminumFoil => 7000,
            ReflectiveMaterial::TinFoil => 7000,
            ReflectiveMaterial::MirrorSheets => 9000,
            ReflectiveMaterial::ReflectiveTape => 8500,
            ReflectiveMaterial::SReflect2000 => 9200,
            ReflectiveMaterial::SilverReflectiveVinyl => 8600,
        }
    }

    /// Reflectivity, in ten-thousandths (`COEFF_SCALE`).
    pub fn reflectivity(&self) -> (r: i64)
        ensures
            r == self.spec_reflectivity(),
    {
        match self {
            ReflectiveMaterial::AluminumFoil => 7000,
            ReflectiveMaterial::TinFoil => 7000,
            ReflectiveMaterial::MirrorSheets => 9000,
            ReflectiveMaterial::ReflectiveTape => 8500,
            ReflectiveMaterial::SReflect2000 => 9200,
            ReflectiveMaterial::SilverReflectiveVinyl => 8600,
        }
    }

    /// Price per square metre, in ten-billionths of a dollar.
    pub open spec fn spec_price_per_m2(self) -> int {
        match self {
            ReflectiveMaterial::AluminumFoil => 5_500_000_000,
            ReflectiveMaterial::TinFoil => 6_800_000_000,
            ReflectiveMaterial::MirrorSheets => 232_400_000_000,
            ReflectiveMaterial::ReflectiveTape => 193_500_000_000,
            ReflectiveMaterial::SReflect2000 => 299_500_000_000,
            ReflectiveMaterial::SilverReflectiveVinyl => 134_000_000_000,
        }
    }

    /// Price per square metre, in ten-billionths of a dollar
    /// (`PRICE_SCALE`).
    pub fn price_per_m2(&self) -> (r: i64)
        ensures
            r == self.spec_price_per_m2(),
    {
        match self {
            ReflectiveMaterial::AluminumFoil => 5_500_000_000,
            ReflectiveMaterial::TinFoil => 6_800_000_000,
            ReflectiveMaterial::MirrorSheets => 232_400_000_000,
            ReflectiveMaterial::ReflectiveTape => 193_500_000_000,
            ReflectiveMaterial::SReflect2000 => 299_500_000_000,
            ReflectiveMaterial::SilverReflectiveVinyl => 134_000_000_000,
        }
    }

    /// The cost of covering `area_um2` square micrometres, exact at
    /// `PRICE_SCALE` per square metre times square micrometres.
    pub fn cost_per_m2(&self, area_um2: i64) -> (r: i128)
        ensures
            r == self.spec_price_per_m2() * area_um2,
    {
        mul_price_area(self.price_per_m2(), area_um2)
    }

    /// The variant at position `i` of catalog order.
    pub open spec fn spec_from_index(i: int) -> ReflectiveMaterial {
        if i == 0 {
            ReflectiveMaterial::AluminumFoil
        } else if i == 1 {
            ReflectiveMaterial::TinFoil
        } else if i == 2 {
            ReflectiveMaterial::MirrorSheets
        } else if i == 3 {
            ReflectiveMaterial::ReflectiveTape
        } else if i == 4 {
            ReflectiveMaterial::SReflect2000
        } else {
            ReflectiveMaterial::SilverReflectiveVinyl
        }
    }

    /// This variant's position in catalog order.
    pub open spec fn spec_index(self) -> int {
        match self {
            ReflectiveMaterial::AluminumFoil => 0,
            ReflectiveMaterial::TinFoil => 1,
            ReflectiveMaterial::MirrorSheets => 2,
            ReflectiveMaterial::ReflectiveTape => 3,
            ReflectiveMaterial::SReflect2000 => 4,
            ReflectiveMaterial::SilverReflectiveVinyl => 5,
        }
    }

    /// The variant at position `i` of catalog order.
    pub(crate) fn from_index(i: usize) -> (r: ReflectiveMaterial)
        requires
            i < 6,
        ensures
            r == ReflectiveMaterial::spec_from_index(i as int),
    {
        if i == 0 {
            ReflectiveMaterial::AluminumFoil
        } else if i == 1 {
            ReflectiveMaterial::TinFoil
        } else if i == 2 {
            ReflectiveMaterial::MirrorSheets
        } else if i == 3 {
            ReflectiveMaterial::ReflectiveTape
        } else if i == 4 {
            ReflectiveMaterial::SReflect2000
        } else {
            ReflectiveMaterial::SilverReflectiveVinyl
        }
    }

    /// The material's display name.
    pub fn label(&self) -> (r: &'static str)
        ensures
            self is AluminumFoil ==> r@ == "Aluminum Foil"@,
            self is TinFoil ==> r@ == "Tin Foil"@,
            self is MirrorSheets ==> r@ == "Mirror Sheets"@,
            self is ReflectiveTape ==> r@ == "Reflective Tape"@,
            self is SReflect2000 ==> r@ == "S Reflect 2000"@,
            self is SilverReflectiveVinyl ==> r@ == "Silver Reflective Vinyl"@,
    {
        match self {
            ReflectiveMaterial::AluminumFoil => "Aluminum Foil",
            ReflectiveMaterial::TinFoil => "Tin Foil",
            ReflectiveMaterial::MirrorSheets => "Mirror Sheets",
            ReflectiveMaterial::ReflectiveTape => "Reflective Tape",
            ReflectiveMaterial::SReflect2000 => "S Reflect 2000",
            ReflectiveMaterial::SilverReflectiveVinyl => "Silver Reflective Vinyl",
        }
    }

    /// Every catalog variant of this category, in catalog order.
    pub fn variants() -> (r: Vec<ReflectiveMaterial>)
        ensures
            r@ == seq![
                ReflectiveMaterial::AluminumFoil,
                ReflectiveMaterial::TinFoil,
                ReflectiveMaterial::MirrorSheets,
                ReflectiveMaterial::ReflectiveTape,
                ReflectiveMaterial::SReflect2000,
                ReflectiveMaterial::SilverReflectiveVinyl,
            ],
    {
        let mut v: Vec<ReflectiveMaterial> = Vec::new();
        v.push(ReflectiveMaterial::AluminumFoil);
        v.push(ReflectiveMaterial::TinFoil);
        v.push(ReflectiveMaterial::MirrorSheets);
        v.push(ReflectiveMaterial::ReflectiveTape);
        v.push(ReflectiveMaterial::SReflect2000);
        v.push(ReflectiveMaterial::SilverReflectiveVinyl);
        proof {
            assert(v@ =~= seq![
                ReflectiveMaterial::AluminumFoil,
                ReflectiveMaterial::TinFoil,
                ReflectiveMaterial::MirrorSheets,
                ReflectiveMaterial::ReflectiveTape,
                ReflectiveMaterial::SReflect2000,
                ReflectiveMaterial::SilverReflectiveVinyl,
            ]);
        }
        v
    }
}

/// Loose insulation filling the shell between inner and outer box.
#[derive(Clone, Copy, Debug, PartialEq, Eq, Hash, Structural)]
pub enum Insulator {
    Newspaper,
    FiberglassInsulation,
    SprayFoam,
    DownFeather,
    R30Fiberglass,
}

impl Insulator {
    /// Thermal conductivity, in hundred-billionths of a W/(m K).
    pub open spec fn spec_conductivity(self) -> int {
        match self {
            Insulator::Newspaper => 12_300_000_000,
            Insulator::FiberglassInsulation => 7_692_307_700,
            Insulator::SprayFoam => 3_900_000_000,
            Insulator::DownFeather => 4_500_000_000,
            Insulator::R30Fiberglass => 3_333_333_333,
        }
    }

    /// Thermal conductivity, in hundred-billionths of a W/(m K)
    /// (`CONDUCTIVITY_SCALE`).
    pub fn conductivity(&self) -> (r: i64)
        ensures
            r == self.spec_conductivity(),
    {
        match self {
            Insulator::Newspaper => 12_300_000_000,
            Insulator::FiberglassInsulation => 7_692_307_700,
            Insulator::SprayFoam => 3_900_000_000,
            Insulator::DownFeather => 4_500_000_000,
            Insulator::R30Fiberglass => 3_333_333_333,
        }
    }

    /// Price per cubic metre, in ten-billionths of a dollar.
    pub open spec fn spec_price_per_m3(self) -> int {
        match self {
            Insulator::Newspaper => 0,
            Insulator::FiberglassInsulation => 831_500_000_000,
            Insulator::SprayFoam => 196_121_300_000_000,
            Insulator::DownFeather => 4_855_700_000_000,
            Insulator::R30Fiberglass => 766_000_000_000,
        }
    }

    /// Price per cubic metre, in ten-billionths of a dollar
    /// (`PRICE_SCALE`).
    pub fn price_per_m3(&self) -> (r: i64)
        ensures
            r == self.spec_price_per_m3(),
    {
        match self {
            Insulator::Newspaper => 0,
            Insulator::FiberglassInsulation => 831_500_000_000,
            Insulator::SprayFoam => 196_121_300_000_000,
            Insulator::DownFeather => 4_855_700_000_000,
            Insulator::R30Fiberglass => 766_000_000_000,
        }
    }

    /// The cost of `volume_um3` cubic micrometres of fill, exact at
    /// `PRICE_SCALE` per cubic metre times cubic micrometres.
    pub fn cost_per_m3(&self, volume_um3: i128) -> (r: i128)
        requires
            -40_000_000_000_000_000_000_000 <= volume_um3 <= 40_000_000_000_000_000_000_000,
        ensures
            r == self.spec_price_per_m3() * volume_um3,
    {
        let price = self.price_per_m3() as i128;
        proof {
            assert(-10_000_000_000_000_000_000_000_000_000_000_000_000 <= price * volume_um3
                <= 10_000_000_000_000_000_000_000_000_000_000_000_000) by (nonlinear_arith)
                requires
                    0 <= price <= 200_000_000_000_000,
                    -40_000_000_000_000_000_000_000 <= volume_um3
                        <= 40_000_000_000_000_000_000_000,
            ;
        }
        price * volume_um3
    }

    /// The variant at position `i` of catalog order.
    pub open spec fn spec_from_index(i: int) -> Insulator {
        if i == 0 {
            Insulator::Newspaper
        } else if i == 1 {
            Insulator::FiberglassInsulation
        } else if i == 2 {
            Insulator::SprayFoam
        } else if i == 3 {
            Insulator::DownFeather
        } else {
            Insulator::R30Fiberglass
        }
    }

    /// This variant's position in catalog order.
    pub open spec fn spec_index(self) -> int {
        match self {
            Insulator::Newspaper => 0,
            Insulator::FiberglassInsulation => 1,
            Insulator::SprayFoam => 2,
            Insulator::DownFeather => 3,
            Insulator::R30Fiberglass => 4,
        }
    }

    /// The variant at position `i` of catalog order.
    pub(crate) fn from_index(i: usize) -> (r: Insulator)
        requires
            i < 5,
        ensures
            r == Insulator::spec_from_index(i as int),
    {
        if i == 0 {
            Insulator::Newspaper
        } else if i == 1 {
            Insulator::FiberglassInsulation
        } else if i == 2 {
            Insulator::SprayFoam
        } else if i == 3 {
            Insulator::DownFeather
        } else {
            Insulator::R30Fiberglass
        }
    }

    /// The material's display name.
    pub fn label(&self) -> (r: &'static str)
        ensures
            self is Newspaper ==> r@ == "Newspaper"@,
            self is FiberglassInsulation ==> r@ == "Fiberglass Insulation"@,
            self is SprayFoam ==> r@ == "Spray Foam"@,
            self is DownFeather ==> r@ == "Down Feather"@,
            self is R30Fiberglass ==> r@ == "R30 Fiberglass"@,
    {
        match self {
            Insulator::Newspaper => "Newspaper",
            Insulator::FiberglassInsulation => "Fiberglass Insulation",
            Insulator::SprayFoam => "Spray Foam",
            Insulator::DownFeather => "Down Feather",
            Insulator::R30Fiberglass => "R30 Fiberglass",
        }
    }

    /// Every catalog variant of this category, in catalog order.
    pub fn variants() -> (r: Vec<Insulator>)
        ensures
            r@ == seq![
                Insulator::Newspaper,
                Insulator::FiberglassInsulation,
                Insulator::SprayFoam,
                Insulator::DownFeather,
                Insulator::R30Fiberglass,
            ],
    {
        let mut v: Vec<Insulator> = Vec::new();
        v.push(Insulator::Newspaper);
        v.push(Insulator::FiberglassInsulation);
        v.push(Insulator::SprayFoam);
        v.push(Insulator::DownFeather);
        v.push(Insulator::R30Fiberglass);
        proof {
            assert(v@ =~= seq![
                Insulator::Newspaper,
                Insulator::FiberglassInsulation,
                Insulator::SprayFoam,
                Insulator::DownFeather,
                Insulator::R30Fiberglass,
            ]);
        }
        v
    }
}

/// Sheet material of the inner and outer box shells.
#[derive(Clone, Copy, Debug, PartialEq, Eq, Hash, Structural)]
pub enum BodyMaterial {
    Cardboard,
    WoodSixteenthInch,
}

impl BodyMaterial {
    /// Thermal conductivity, in hundred-billionths of a W/(m K).
    pub open spec fn spec_conductivity(self) -> int {
        match self {
            BodyMaterial::Cardboard => 6_400_000_000,
            BodyMaterial::WoodSixteenthInch => 15_000_000_000,
        }
    }

    /// Thermal conductivity, in hundred-billionths of a W/(m K)
    /// (`CONDUCTIVITY_SCALE`).
    pub fn conductivity(&self) -> (r: i64)
        ensures
            r == self.spec_conductivity(),
    {
        match self {
            BodyMaterial::Cardboard => 6_400_000_000,
            BodyMaterial::WoodSixteenthInch => 15_000_000_000,
        }
    }

    /// Price per square metre, in ten-billionths of a dollar.
    pub open spec fn spec_price_per_m2(self) -> int {
        match self {
            BodyMaterial::Cardboard => 17_500_000_000,
            BodyMaterial::WoodSixteenthInch => 24_800_000_000,
        }
    }

    /// Price per square metre, in ten-billionths of a dollar
    /// (`PRICE_SCALE`).
    pub fn price_per_m2(&self) -> (r: i64)
        ensures
            r == self.spec_price_per_m2(),
    {
        match self {
            BodyMaterial::Cardboard => 17_500_000_000,
            BodyMaterial::WoodSixteenthInch => 24_800_000_000,
        }
    }

    /// The cost of covering `area_um2` square micrometres, exact at
    /// `PRICE_SCALE` per square metre times square micrometres.
    pub fn cost_per_m2(&self, area_um2: i64) -> (r: i128)
        ensures
            r == self.spec_price_per_m2() * area_um2,
    {
        mul_price_area(self.price_per_m2(), area_um2)
    }

    /// Canonical sheet thickness, in micrometres.
    pub open spec fn spec_thickness(self) -> int {
        match self {
            BodyMaterial::Cardboard => 4000,
            BodyMaterial::WoodSixteenthInch => 62_500,
        }
    }

    /// Canonical sheet thickness, in micrometres.
    pub fn thickness(&self) -> (r: i64)
        ensures
            r == self.spec_thickness(),
    {
        match self {
            BodyMaterial::Cardboard => 4000,
            BodyMaterial::WoodSixteenthInch => 62_500,
        }
    }

    /// The variant at position `i` of catalog order.
    pub open spec fn spec_from_index(i: int) -> BodyMaterial {
        if i == 0 {
            BodyMaterial::Cardboard
        } else {
            BodyMaterial::WoodSixteenthInch
        }
    }

    /// This variant's position in catalog order.
    pub open spec fn spec_index(self) -> int {
        match self {
            BodyMaterial::Cardboard => 0,
            BodyMaterial::WoodSixteenthInch => 1,
        }
    }

    /// The variant at position `i` of catalog order.
    pub(crate) fn from_index(i: usize) -> (r: BodyMaterial)
        requires
            i < 2,
        ensures
            r == BodyMaterial::spec_from_index(i as int),
    {
        if i == 0 {
            BodyMaterial::Cardboard
        } else {
            BodyMaterial::WoodSixteenthInch
        }
    }

    /// The material's display name.
    pub fn label(&self) -> (r: &'static str)
        ensures
            self is Cardboard ==> r@ == "Cardboard"@,
            self is WoodSixteenthInch ==> r@ == "Wood 1/16 in"@,
    {
        match self {
            BodyMaterial::Cardboard => "Cardboard",
            BodyMaterial::WoodSixteenthInch => "Wood 1/16 in",
        }
    }

    /// Every catalog variant of this category, in catalog order.
    pub fn variants() -> (r: Vec<BodyMaterial>)
        ensures
            r@ == seq![BodyMaterial::Cardboard, BodyMaterial::WoodSixteenthInch],
    {
        let mut v: Vec<BodyMaterial> = Vec::new();
        v.push(BodyMaterial::Cardboard);
        v.push(BodyMaterial::WoodSixteenthInch);
        proof {
            assert(v@ =~= seq![BodyMaterial::Cardboard, BodyMaterial::WoodSixteenthInch]);
        }
        v
    }
}

/// Multiplies a catalog price by a signed area, exactly in 128 bits.
fn mul_price_area(price: i64, area_um2: i64) -> (r: i128)
    requires
        0 <= price <= 1_000_000_000_000,
    ensures
        r == price * area_um2,
{
    let p = price as i128;
    let a = area_um2 as i128;
    proof {
        assert(-10_000_000_000_000_000_000_000_000_000_000 <= p * a
            <= 10_000_000_000_000_000_000_000_000_000_000) by (nonlinear_arith)
            requires
                0 <= p <= 1_000_000_000_000,
                -0x8000000000000000 <= a <= 0x8000000000000000,
        ;
    }
    p * a
}

} // verus!
