//! Verified core of an image resizer that runs its resampling on an OpenCL
//! device: what is sent to the device and what comes back (`resize`,
//! `raster`), the decisions of the HTTP resize service (`service`), and the
//! printing of elapsed times (`elapsed`, `decimal`).

pub mod decimal;
pub mod elapsed;
pub mod raster;
pub mod resize;
pub mod service;
