//! The pipeline, modelled by the shader sources it was compiled from.
//!
//! The render pipeline is the one object that shader hot-reload replaces.
//! Here it is identified by the pair of source texts it was built from: a
//! reload with both sources readable swaps in the new pair, a reload with a
//! missing source fails without touching the active pair, and reloading
//! twice with unchanged sources is the same as reloading once.

use vstd::prelude::*;

verus! {

/// A compiled pipeline, identified by the shader sources it was built from.
#[derive(Debug)]
pub struct ShaderPipeline {
    /// Source text of the vertex shader (entry point `vs_main`).
    pub vertex_source: String,
    /// Source text of the fragment shader (entry point `fs_main`).
    pub fragment_source: String,
}

/// Why a shader reload failed.
#[derive(Clone, Copy, Debug, PartialEq, Eq, Structural)]
pub enum ShaderError {
    /// The vertex shader file was missing or unreadable.
    MissingVertexSource,
    /// The fragment shader file was missing or unreadable.
    MissingFragmentSource,
}

impl ShaderPipeline {
    /// The pipeline's identity in specifications: the pair of source texts.
    pub open spec fn sources(self) -> (Seq<char>, Seq<char>) {
        (self.vertex_source@, self.fragment_source@)
    }
}

/// The view of an optional source text.
pub open spec fn source_view(s: Option<String>) -> Option<Seq<char>> {
    match s {
        None => None,
        Some(t) => Some(t@),
    }
}

/// The reload transition on pipeline identities: the new source pair and the
/// result. A missing source is an error and leaves the pair unchanged;
/// otherwise the new pair replaces the old one.
pub open spec fn reload_result(
    cur: (Seq<char>, Seq<char>),
    vs: Option<Seq<char>>,
    fs: Option<Seq<char>>,
) -> ((Seq<char>, Seq<char>), Result<(), ShaderError>) {
    match vs {
        None => (cur, Err(ShaderError::MissingVertexSource)),
        Some(v) => match fs {
            None => (cur, Err(ShaderError::MissingFragmentSource)),
            Some(f) => ((v, f), Ok(())),
        },
    }
}

/// Law: reloading is idempotent. Reloading twice with the same readable
/// sources leaves exactly the pipeline that one reload leaves.
pub proof fn lemma_reload_idempotent(cur: (Seq<char>, Seq<char>), v: Seq<char>, f: Seq<char>)
    ensures
        ({
            let (once, r1) = reload_result(cur, Some(v), Some(f));
            let (twice, r2) = reload_result(once, Some(v), Some(f));
            twice == once && r1 == Ok::<(), ShaderError>(()) && r2 == Ok::<(), ShaderError>(())
        }),
{
}

/// Law: a reload with a missing source fails and leaves the active pipeline
/// exactly as it was; no swap occurs.
pub proof fn lemma_failed_reload_keeps_pipeline(
    cur: (Seq<char>, Seq<char>),
    vs: Option<Seq<char>>,
    fs: Option<Seq<char>>,
)
    requires
        vs is None || fs is None,
    ensures
        ({
            let (next, r) = reload_result(cur, vs, fs);
            next == cur && r is Err
        }),
{
}

} // verus!
