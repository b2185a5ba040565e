//! Domain model: numeric values, plot configuration types, the plot document and
//! the columnar data table.
pub mod number;
pub mod types;

pub use number::{Real32, Real64};
pub use types::{
    AxesConfig, AxisConfig, AxisKind, Color, ImageFormat, ImageSize, LayoutConfig, LegendConfig,
    LegendPosition, LineStyle, MarkerShape, MarkerStyle, RangePolicy, ScaleType, SeriesId,
    SeriesStyle, TickConfig,
};
pub mod plot;

pub use plot::{PlotModel, SeriesModel};
pub mod data;

pub use data::{ColumnData, DataTable, Delimiter};
