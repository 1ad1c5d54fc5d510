use vstd::prelude::*;

verus! {

/// Stages of the wallpaper's shader program.
#[derive(Clone, Copy, Debug, PartialEq, Eq, Structural)]
pub enum ShaderStage {
    Vertex,
    Fragment,
    Compute,
}

impl ShaderStage {
    /// Name of the stage's entry point in the shader source; the program has
    /// no compute stage.
    pub fn entry_point(self) -> (r: Option<&'static str>)
        ensures
            self == ShaderStage::Vertex ==> (r matches Some(e) && e@ == "vs_main"@),
            self == ShaderStage::Fragment ==> (r matches Some(e) && e@ == "fs_main"@),
            self == ShaderStage::Compute ==> r is None,
    {
        match self {
            ShaderStage::Vertex => Some("vs_main"),
            ShaderStage::Fragment => Some("fs_main"),
            ShaderStage::Compute => None,
        }
    }
}

} // verus!
