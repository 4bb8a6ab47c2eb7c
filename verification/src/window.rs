//! The window glazing catalog.
//!
//! Besides price and transmissivity, each glazing carries its empirical
//! calibration: a table of measured overall heat-loss coefficients `Uw`
//! at reference outdoor temperatures, and a trend line fitted offline
//! over real-world test data that gives measured interior temperature as
//! a function of `ln(Uw)`.

use vstd::prelude::*;

use crate::trendline::LNTrendline;

verus! {

/// One calibration sample: the overall window heat-loss coefficient
/// `Uw` in hundredths of a W/(m^2 K), and the interior temperature of
/// the reference test in whole degrees Celsius.
pub type UwSample = (i64, i64);

/// Window glazing of the oven's top opening.
#[derive(Clone, Copy, Debug, PartialEq, Eq, Hash, Structural)]
pub enum WindowMaterial {
    SingleMylar,
    DoubleMylar,
}

impl WindowMaterial {
    /// The variant at position `i` of catalog order.
    pub open spec fn spec_from_index(i: int) -> WindowMaterial {
        if i == 0 {
            WindowMaterial::SingleMylar
        } else {
            WindowMaterial::DoubleMylar
        }
    }

    /// This variant's position in catalog order.
    pub open spec fn spec_index(self) -> int {
        match self {
            WindowMaterial::SingleMylar => 0,
            WindowMaterial::DoubleMylar => 1,
        }
    }

    /// The variant at position `i` of catalog order.
    pub(crate) fn from_index(i: usize) -> (r: WindowMaterial)
        requires
            i < 2,
        ensures
            r == WindowMaterial::spec_from_index(i as int),
    {
        if i == 0 {
            WindowMaterial::SingleMylar
        } else {
            WindowMaterial::DoubleMylar
        }
    }

    /// The material's display name.
    pub fn label(&self) -> (r: &'static str)
        ensures
            self is SingleMylar ==> r@ == "Single Mylar"@,
            self is DoubleMylar ==> r@ == "Double Mylar"@,
    {
        match self {
            WindowMaterial::SingleMylar => "Single Mylar",
            WindowMaterial::DoubleMylar => "Double Mylar",
        }
    }

    /// Every catalog variant of this category, in catalog order.
    pub fn variants() -> (r: Vec<WindowMaterial>)
        ensures
            r@ == seq![WindowMaterial::SingleMylar, WindowMaterial::DoubleMylar],
    {
        let mut v: Vec<WindowMaterial> = Vec::new();
        v.push(WindowMaterial::SingleMylar);
        v.push(WindowMaterial::DoubleMylar);
        proof {
            assert(v@ =~= seq![WindowMaterial::SingleMylar, WindowMaterial::DoubleMylar]);
        }
        v
    }

    /// Transmissivity of the glazing, in ten-thousandths: a single sheet
    /// passes 92% of incident light, a double sheet the square of that.
    pub open spec fn spec_transmitivity(self) -> int {
        match self {
            WindowMaterial::SingleMylar => 9200,
            WindowMaterial::DoubleMylar => 8464,
        }
    }

    /// Transmissivity, in ten-thousandths (`COEFF_SCALE`).
    pub fn transmitivity(&self) -> (r: i64)
        ensures
            r == self.spec_transmitivity(),
    {
        match self {
            WindowMaterial::SingleMylar => 9200,
            WindowMaterial::DoubleMylar => 8464,
        }
    }

    /// Price per square metre, in ten-billionths of a dollar: a double
    /// sheet costs twice a single one.
    pub open spec fn spec_price_per_m2(self) -> int {
        match self {
            WindowMaterial::SingleMylar => 41_443_933_155,
            WindowMaterial::DoubleMylar => 82_887_866_310,
        }
    }

    /// Price per square metre, in ten-billionths of a dollar
    /// (`PRICE_SCALE`).
    pub fn price_per_m2(&self) -> (r: i64)
        ensures
            r == self.spec_price_per_m2(),
    {
        match self {
            WindowMaterial::SingleMylar => 41_443_933_155,
            WindowMaterial::DoubleMylar => 82_887_866_310,
        }
    }

    /// The cost of covering `area_um2` square micrometres, exact at
    /// `PRICE_SCALE` per square metre times square micrometres.
    pub fn cost_per_m2(&self, area_um2: i64) -> (r: i128)
        ensures
            r == self.spec_price_per_m2() * area_um2,
    {
        let p = self.price_per_m2() as i128;
        let a = area_um2 as i128;
        proof {
            assert(-10_000_000_000_000_000_000_000_000_000_000 <= p * a
                <= 10_000_000_000_000_000_000_000_000_000_000) by (nonlinear_arith)
                requires
                    0 <= p <= 100_000_000_000,
                    -0x8000000000000000 <= a <= 0x8000000000000000,
            ;
        }
        p * a
    }

    /// The calibration table of this glazing, in measurement order.
    pub open spec fn spec_uws(self) -> Seq<UwSample> {
        match self {
            WindowMaterial::SingleMylar => seq![
                (1010int as i64, 66int as i64),
                (1390, 93),
                (1866, 121),
                (2434, 149),
                (3160, 177),
                (4011, 204),
            ],
            WindowMaterial::DoubleMylar => seq![
                (488int as i64, 66int as i64),
                (669, 93),
                (896, 121),
                (1174, 149),
                (1520, 177),
                (1935, 204),
            ],
        }
    }

    /// The calibration table: measured `(Uw, temperature)` pairs, `Uw`
    /// in hundredths, temperature in whole degrees Celsius.
    pub fn uws(&self) -> (r: Vec<UwSample>)
        ensures
            r@ == self.spec_uws(),
            r@.len() == 6,
    {
        let mut v: Vec<UwSample> = Vec::new();
        match self {
            WindowMaterial::SingleMylar => {
                v.push((1010, 66));
                v.push((1390, 93));
                v.push((1866, 121));
                v.push((2434, 149));
                v.push((3160, 177));
                v.push((4011, 204));
            },
            WindowMaterial::DoubleMylar => {
                v.push((488, 66));
                v.push((669, 93));
                v.push((896, 121));
                v.push((1174, 149));
                v.push((1520, 177));
                v.push((1935, 204));
            },
        }
        proof {
            assert(v@ =~= self.spec_uws());
        }
        v
    }

    /// The glazing's own calibration trend line, fitted offline over
    /// real-world test data: measured interior temperature as a function
    /// of `ln(Uw)`. Constants in hundred-millionths (`LINE_SCALE`).
    pub open spec fn spec_uw_line(self) -> LNTrendline {
        match self {
            WindowMaterial::SingleMylar => LNTrendline {
                coefficient: 10_050_929_390i64,
                intercept: -17_000_735_190i64,
            },
            WindowMaterial::DoubleMylar => LNTrendline {
                coefficient: 10_059_535_340i64,
                intercept: -9_679_716_142i64,
            },
        }
    }

    /// The glazing's own calibration trend line (see `spec_uw_line`).
    pub fn uw_line(&self) -> (r: LNTrendline)
        ensures
            r == self.spec_uw_line(),
    {
        match self {
            WindowMaterial::SingleMylar => LNTrendline {
                coefficient: 10_050_929_390,
                intercept: -17_000_735_190,
            },
            WindowMaterial::DoubleMylar => LNTrendline {
                coefficient: 10_059_535_340,
                intercept: -9_679_716_142,
            },
        }
    }
}

} // verus!
