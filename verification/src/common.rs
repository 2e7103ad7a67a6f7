//! Constants of the FoLiA format and of this library.

use vstd::prelude::*;

verus! {

///The set definition of the default text set
pub const DEFAULT_TEXT_SET: &'static str = "https://raw.githubusercontent.com/proycon/folia/master/setdefinitions/text.foliaset.ttl";

///The FoLiA version that this library implements
pub const FOLIAVERSION: &'static str = "2.0.0";

///The generator name that goes into serialised documents
pub const GENERATOR: &'static str = "folia-rust";

///The FoLiA XML namespace
pub const NSFOLIA: &'static str = "http://ilk.uvt.nl/folia";

///The XLink namespace
pub const NSXLINK: &'static str = "http://www.w3.org/1999/xlink";

} // verus!
