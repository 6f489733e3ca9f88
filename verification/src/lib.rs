//! Build-time packaging and runtime serving of installable web-application
//! artifacts: a resolver for nested build output directories, a planner for
//! the nested cross-compilation, a service-worker script composer, a
//! web-app manifest generator, and a content-addressed asset index that
//! answers conditional GET requests.

use vstd::prelude::*;

pub mod build_pwa;
pub mod embed;
pub mod htmx;
pub mod manifest;
pub mod sw;
pub mod target_dir;

verus! {

/// The one-line script a page inlines to register the composed service
/// worker with the browser.
pub const REGISTER_SW_SNIPPET: &'static str =
    "if ('serviceWorker' in navigator) navigator.serviceWorker.register('sw.js', {type: 'module'});";

/// Joins an output directory and a file name into the path of a build
/// artifact, as `<dir>/<filename>`.
pub fn out_path(dir: &str, filename: &str) -> (r: String)
    ensures
        r@ == dir@ + "/"@ + filename@,
{
    let mut s = dir.to_owned();
    s.append("/");
    s.append(filename);
    s
}

} // verus!
