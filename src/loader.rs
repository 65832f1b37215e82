use vstd::prelude::*;

verus! {

/// What a scene loader produced: a reference to a single object, or the
/// descriptor of a whole scene.
#[derive(Debug, Clone)]
pub enum LoadResult<O, S> {
    /// Reference to a single mesh.
    Object(O),
    /// The root nodes of a scene.
    Scene(S),
}

impl<O, S> LoadResult<O, S> {
    /// The object, or `Err` when a scene was loaded.
    pub fn object(self) -> (r: Result<O, ()>)
        ensures
            match self {
                LoadResult::Object(o) => r == Ok::<O, ()>(o),
                LoadResult::Scene(_) => r == Err::<O, ()>(()),
            },
    {
        match self {
            LoadResult::Object(obj) => Ok(obj),
            LoadResult::Scene(_) => Err(()),
        }
    }

    /// The scene, or `Err` when a single object was loaded.
    pub fn scene(self) -> (r: Result<S, ()>)
        ensures
            match self {
                LoadResult::Object(_) => r == Err::<S, ()>(()),
                LoadResult::Scene(s) => r == Ok::<S, ()>(s),
            },
    {
        match self {
            LoadResult::Object(_) => Err(()),
            LoadResult::Scene(scene) => Ok(scene),
        }
    }
}

/// The loader of Wavefront OBJ files.
#[derive(Debug, Clone, Copy)]
pub struct ObjLoader {}

impl ObjLoader {
    /// The name under which the loader presents itself.
    pub fn name(&self) -> (r: &'static str)
        ensures
            r@ == "obj-loader"@,
    {
        "obj-loader"
    }
}

impl Default for ObjLoader {
    fn default() -> (r: Self)
        ensures
            r == (ObjLoader {  }),
    {
        ObjLoader {  }
    }
}

} // verus!
