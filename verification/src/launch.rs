use vstd::prelude::*;

use crate::error::MatmulSetupError;
use crate::routines::selector::{Selection, TileSizeSelection};
use crate::routines::simple_unit::SimpleUnitSelectionArgs;
use crate::routines::vecmat::VecMatStrategy;

verus! {

/// Hints for the accelerated simple family.
#[derive(Clone, Copy, Debug, PartialEq, Eq, Hash, Structural)]
pub struct SimpleArgs {
    /// Whether one plane handles several tile rows.
    pub multi_rows: bool,
}

impl Default for SimpleArgs {
    fn default() -> (r: Self)
        ensures
            r == (SimpleArgs { multi_rows: false }),
    {
        SimpleArgs { multi_rows: false }
    }
}

/// Hints for the double-buffered family.
#[derive(Clone, Copy, Debug, PartialEq, Eq, Hash, Structural)]
pub struct DoubleBufferingArgs {
    /// Whether some planes only load while others only compute.
    pub specialized: bool,
}

impl Default for DoubleBufferingArgs {
    fn default() -> (r: Self)
        ensures
            r == (DoubleBufferingArgs { specialized: false }),
    {
        DoubleBufferingArgs { specialized: false }
    }
}

/// Hints for the ordered double-buffered family.
#[derive(Clone, Copy, Debug, PartialEq, Eq, Hash, Structural)]
pub struct OrderedSelectionArgs {
    pub partition_k: Option<u32>,
    pub row_count: Option<u32>,
    pub rows_per_plane: Option<u32>,
}

impl Default for OrderedSelectionArgs {
    fn default() -> (r: Self)
        ensures
            r == (OrderedSelectionArgs {
                partition_k: None,
                row_count: None,
                rows_per_plane: None,
            }),
    {
        OrderedSelectionArgs { partition_k: None, row_count: None, rows_per_plane: None }
    }
}

/// Hints for the double-buffered unit family.
#[derive(Clone, Copy, Debug, PartialEq, Eq, Hash, Structural)]
pub struct DoubleUnitSelectionArgs {
    pub tile_size: TileSizeSelection,
}

impl Default for DoubleUnitSelectionArgs {
    fn default() -> (r: Self)
        ensures
            r == (DoubleUnitSelectionArgs { tile_size: TileSizeSelection::MinTileSize }),
    {
        DoubleUnitSelectionArgs { tile_size: TileSizeSelection::MinTileSize }
    }
}

/// Which reader the simple algorithms use.
#[derive(Clone, Copy, Debug, PartialEq, Eq, Hash, Structural)]
pub enum ReadingStrategy {
    Cyclic,
    Strided,
    Tilewise,
    AsyncCyclic,
    AsyncStrided,
    Tma,
}

/// Which reader the double-buffering algorithms use.
#[derive(Clone, Copy, Debug, PartialEq, Eq, Hash, Structural)]
pub enum PartialReadingStrategy {
    Cyclic,
    Tilewise,
    Hybrid,
    Tma,
    AsyncCyclic,
    AsyncStrided,
}

/// Which reader the specialized algorithms use.
#[derive(Clone, Copy, Debug, PartialEq, Eq, Hash, Structural)]
pub enum AsyncPartialReadingStrategy {
    Cyclic,
    Strided,
    Tma,
}

/// Which tile matmul the accelerated algorithms use.
#[derive(Clone, Copy, Debug, PartialEq, Eq, Hash, Structural)]
pub enum AcceleratedTileKind {
    Cmma,
    Mma,
}

impl Default for AcceleratedTileKind {
    fn default() -> (r: Self)
        ensures
            r == AcceleratedTileKind::Cmma,
    {
        AcceleratedTileKind::Cmma
    }
}

/// The matmul algorithm to launch. Most strategies carry a selection
/// that can be forced or inferred from minimal information; some must
/// name a loading strategy.
#[derive(Clone, Copy, Debug)]
pub enum Strategy {
    Simple {
        read_strategy: ReadingStrategy,
        selection: Selection<SimpleArgs>,
        tile_kind: AcceleratedTileKind,
    },
    DoubleBuffering {
        read_strategy: PartialReadingStrategy,
        selection: Selection<DoubleBufferingArgs>,
        tile_kind: AcceleratedTileKind,
    },
    Specialized {
        read_strategy: AsyncPartialReadingStrategy,
        selection: Selection<()>,
        tile_kind: AcceleratedTileKind,
    },
    SimpleUnit(Selection<SimpleUnitSelectionArgs>),
    DoubleUnit(Selection<DoubleUnitSelectionArgs>),
    SimpleVecMat(Selection<()>),
    DoubleVecMat(Selection<()>),
    OrderedDoubleBuffering {
        selection: Selection<OrderedSelectionArgs>,
        tile_kind: AcceleratedTileKind,
    },
    Naive,
    /// Tries a simple accelerated matmul, then the unit family if the
    /// former is unavailable.
    Auto,
}

impl Default for Strategy {
    fn default() -> (r: Self)
        ensures
            r is Auto,
    {
        Strategy::Auto
    }
}

impl From<()> for VecMatStrategy {
    fn from(value: ()) -> (r: Self)
        ensures
            r == (VecMatStrategy {  }),
    {
        VecMatStrategy {}
    }
}

impl vstd::std_specs::convert::FromSpecImpl<()> for VecMatStrategy {
    open spec fn obeys_from_spec() -> bool {
        true
    }

    open spec fn from_spec(v: ()) -> Self {
        VecMatStrategy {  }
    }
}

/// The first attempt of the `Auto` strategy: the simple accelerated
/// family with its defaults.
pub fn auto_initial() -> (r: Strategy)
    ensures
        r matches Strategy::Simple { read_strategy, selection, tile_kind } && {
            &&& read_strategy == ReadingStrategy::Cyclic
            &&& selection is Inferred
            &&& tile_kind == AcceleratedTileKind::Cmma
        },
{
    Strategy::Simple {
        read_strategy: ReadingStrategy::Cyclic,
        selection: Selection::Inferred(SimpleArgs { multi_rows: false }),
        tile_kind: AcceleratedTileKind::Cmma,
    }
}

/// The decision at the heart of the `Auto` strategy: after the simple
/// accelerated family fails, retry with the unit family exactly when
/// the failure says this hardware cannot run the blueprint; a
/// configuration error is never retried.
pub fn auto_fallback(err: &MatmulSetupError) -> (r: Option<Strategy>)
    ensures
        err is Unavailable ==> (r matches Some(s) && (s matches Strategy::SimpleUnit(sel)
            && sel is Inferred)),
        err is InvalidConfig ==> r is None,
{
    match err {
        MatmulSetupError::Unavailable(_) => Some(
            Strategy::SimpleUnit(
                Selection::Inferred(
                    SimpleUnitSelectionArgs { tile_size: TileSizeSelection::MinTileSize },
                ),
            ),
        ),
        MatmulSetupError::InvalidConfig(_) => None,
    }
}

} // verus!
