//! Verified core of an editor's project-diff panel and of its SVG icon
//! rasteriser.
//!
//! The panel logic decides which changed files to load into the diff view and
//! which shown buffers to evict, and drives the background worker that keeps
//! the view in step with the repository. The rasteriser decides whether an
//! asset is loaded, allocates the raster of the requested size, and reads the
//! alpha mask from it once the asset is drawn.

pub mod geometry;
pub mod icon_story;
pub mod project_diff;
pub mod project_path;
pub mod raster;
pub mod svg_renderer;
pub mod sync_plan;
pub mod worker;
