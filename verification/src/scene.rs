//! The pipelines and materials of a scene, kept in registries.
//!
//! A pipeline is shared by its location; a material is unique and refers to
//! the pipeline it was made for.

use vstd::prelude::*;
use crate::assets::{ShaderParams, UniformEntry, UniformVariable};
use crate::errors::Error;
use crate::handle::{Handle, MaterialHandle, PipelineHandle, ShaderHandle};
use crate::location::{Location, LocationAtom};
use crate::registry::{counted_down, counted_up, shared_under, Record, Registry};

verus! {

/// What a scene keeps for a pipeline.
#[derive(Debug, Clone, Copy, PartialEq, Eq)]
pub struct PipelineParams {
    pub shader: ShaderHandle,
    pub shader_params: ShaderParams,
}

impl PipelineParams {
    /// The pipeline of `shader`.
    pub fn new(shader: ShaderHandle, shader_params: ShaderParams) -> (p: Self)
        ensures
            p == (PipelineParams { shader, shader_params }),
    {
        PipelineParams { shader, shader_params }
    }
}

/// What a material is made from.
#[derive(Debug, Clone, PartialEq, Eq)]
pub struct MaterialSetup {
    pub pipeline: PipelineHandle,
    pub variables: Vec<UniformEntry>,
}

/// What a scene keeps for a material.
#[derive(Debug, Clone, PartialEq, Eq)]
pub struct MaterialParams {
    pub pipeline: PipelineHandle,
    pub variables: Vec<UniformEntry>,
    pub shader_params: ShaderParams,
}

/// Whether `after` is `before` with `field` bound to `value`: the first entry
/// of `field` holds `value` now, or, if `field` had no entry, a new entry
/// follows the others.
pub open spec fn rebound(
    before: Seq<UniformEntry>,
    after: Seq<UniformEntry>,
    field: u64,
    value: UniformVariable,
) -> bool {
    ||| exists|i: int|
        {
            &&& 0 <= i < before.len()
            &&& (#[trigger] before[i]).0 == field
            &&& forall|j: int| 0 <= j < i ==> (#[trigger] before[j]).0 != field
            &&& after == before.update(i, (field, value))
        }
    ||| {
        &&& forall|j: int| 0 <= j < before.len() ==> (#[trigger] before[j]).0 != field
        &&& after == before.push((field, value))
    }
}

impl MaterialParams {
    /// The material of `pipeline` with its first variables.
    pub fn new(pipeline: PipelineHandle, variables: Vec<UniformEntry>, shader_params: ShaderParams) -> (m:
        Self)
        ensures
            m == (MaterialParams { pipeline, variables, shader_params }),
    {
        MaterialParams { pipeline, variables, shader_params }
    }

    /// Binds the uniform variable whose name hashes to `field` to `value`.
    pub fn bind(&mut self, field: u64, value: UniformVariable)
        ensures
            final(self).pipeline == old(self).pipeline,
            final(self).shader_params == old(self).shader_params,
            rebound(old(self).variables@, final(self).variables@, field, value),
    {
        let mut i: usize = 0;
        while i < self.variables.len()
            invariant
                *self == *old(self),
                i <= self.variables@.len(),
                forall|j: int| 0 <= j < i ==> (#[trigger] self.variables@[j]).0 != field,
            decreases self.variables@.len() - i,
        {
            if self.variables[i].0 == field {
                self.variables.set(i, (field, value));
                proof {
                    assert(old(self).variables@[i as int].0 == field);
                }
                return ;
            }
            i += 1;
        }
        self.variables.push((field, value));
    }
}

/// The resources of a scene.
pub struct Scene {
    pipelines: Registry<PipelineParams>,
    materials: Registry<MaterialParams>,
}

impl Scene {
    /// The registry of pipelines.
    pub closed spec fn pipelines(&self) -> Registry<PipelineParams> {
        self.pipelines
    }

    /// The registry of materials.
    pub closed spec fn materials(&self) -> Registry<MaterialParams> {
        self.materials
    }

    /// Both registries are well-formed.
    pub open spec fn wf(&self) -> bool {
        self.pipelines().wf() && self.materials().wf()
    }

    /// Creates a scene without pipelines and materials.
    pub fn new() -> (s: Self)
        ensures
            s.wf(),
            s.pipelines()@ == Map::<Handle, Record<PipelineParams>>::empty(),
            s.materials()@ == Map::<Handle, Record<MaterialParams>>::empty(),
            s.pipelines().slot_count() == 0,
            s.materials().slot_count() == 0,
    {
        Scene { pipelines: Registry::new(), materials: Registry::new() }
    }

    /// Borrows the registry of pipelines.
    pub fn pipeline_registry(&self) -> (r: &Registry<PipelineParams>)
        ensures
            *r == self.pipelines(),
    {
        &self.pipelines
    }

    /// Borrows the registry of materials.
    pub fn material_registry(&self) -> (r: &Registry<MaterialParams>)
        ensures
            *r == self.materials(),
    {
        &self.materials
    }

    /// Looks up the pipeline created under a location equal to `location`.
    pub fn lookup_pipeline(&self, location: Location) -> (r: Option<PipelineHandle>)
        requires
            self.wf(),
        ensures
            r == (match shared_under(self.pipelines()@, location.atom()) {
                Some(h) => Some(PipelineHandle(h)),
                None => None,
            }),
    {
        match self.pipelines.lookup(location) {
            Some(h) => Some(PipelineHandle(h)),
            None => None,
        }
    }

    /// Takes one more reference to the pipeline created under a location
    /// equal to `location`, if there is one. This is the first half of
    /// creating a pipeline: only if it finds nothing does the caller have to
    /// build a shader and call `create_pipeline`.
    pub fn reuse_pipeline(&mut self, location: Location) -> (r: Option<PipelineHandle>)
        requires
            old(self).wf(),
            old(self).pipelines().admits(location.atom()),
        ensures
            final(self).wf(),
            final(self).materials() == old(self).materials(),
            r == (match shared_under(old(self).pipelines()@, location.atom()) {
                Some(h) => Some(PipelineHandle(h)),
                None => None,
            }),
            final(self).pipelines()@ == (match shared_under(old(self).pipelines()@, location.atom()) {
                Some(h) => counted_up(old(self).pipelines()@, h),
                None => old(self).pipelines()@,
            }),
            forall|x: Handle| old(self).pipelines().issued(x) == final(self).pipelines().issued(x),
            final(self).pipelines().slot_count() == old(self).pipelines().slot_count(),
            final(self).pipelines().vacancies() == old(self).pipelines().vacancies(),
    {
        match self.pipelines.lookup(location) {
            Some(h) => {
                self.pipelines.inc_rc(h);
                Some(PipelineHandle(h))
            },
            None => None,
        }
    }

    /// Stores the pipeline of `shader` under `location`. If a pipeline is
    /// already stored under an equal location, that one gets one more
    /// reference and is returned; the shader handed in is not recorded then.
    pub fn create_pipeline(
        &mut self,
        location: Location,
        shader: ShaderHandle,
        params: ShaderParams,
    ) -> (r: PipelineHandle)
        requires
            old(self).wf(),
            old(self).pipelines().admits(location.atom()),
        ensures
            final(self).wf(),
            final(self).materials() == old(self).materials(),
            Registry::created(
                &old(self).pipelines(),
                location,
                PipelineParams { shader, shader_params: params },
                &final(self).pipelines(),
                r.0,
            ),
            final(self).pipelines()@.dom().contains(r.0),
            shared_under(final(self).pipelines()@, location.atom()) == (if location.is_shared() {
                Some(r.0)
            } else {
                None
            }),
            forall|x: Handle| old(self).pipelines().issued(x) ==> final(self).pipelines().issued(x),
            old(self).pipelines().slot_count() <= final(self).pipelines().slot_count()
                <= old(self).pipelines().slot_count() + 1,
    {
        PipelineHandle(self.pipelines.create(location, PipelineParams::new(shader, params)))
    }

    /// Drops one reference to a pipeline. The pipeline leaves the scene with
    /// its last reference.
    pub fn delete_pipeline(&mut self, handle: PipelineHandle)
        requires
            old(self).wf(),
        ensures
            final(self).wf(),
            final(self).materials() == old(self).materials(),
            final(self).pipelines()@ == counted_down(old(self).pipelines()@, handle.0),
            forall|x: Handle| old(self).pipelines().issued(x) == final(self).pipelines().issued(x),
            final(self).pipelines().slot_count() == old(self).pipelines().slot_count(),
    {
        self.pipelines.dec_rc(handle.0);
    }

    /// Creates a new material for the pipeline that `setup` names. Every
    /// material is a resource of its own.
    pub fn create_material(&mut self, setup: MaterialSetup) -> (r: Result<MaterialHandle, Error>)
        requires
            old(self).wf(),
            old(self).materials().has_room(),
        ensures
            final(self).wf(),
            final(self).pipelines() == old(self).pipelines(),
            match r {
                Ok(h) => {
                    &&& old(self).pipelines()@.dom().contains(setup.pipeline.0)
                    &&& !old(self).materials().issued(h.0)
                    &&& final(self).materials()@ == old(self).materials()@.insert(
                        h.0,
                        Record {
                            value: MaterialParams {
                                pipeline: setup.pipeline,
                                variables: setup.variables,
                                shader_params: old(self).pipelines()@[setup.pipeline.0].value.shader_params,
                            },
                            rc: 1,
                            atom: None,
                        },
                    )
                },
                Err(e) => {
                    &&& !old(self).pipelines()@.dom().contains(setup.pipeline.0)
                    &&& e == Error::PipelineHandleInvalid(setup.pipeline)
                    &&& final(self).materials() == old(self).materials()
                },
            },
            forall|x: Handle| old(self).materials().issued(x) ==> final(self).materials().issued(x),
    {
        broadcast use LocationAtom::lemma_parts;

        match self.pipelines.get(setup.pipeline.0) {
            Some(po) => {
                let location = Location::unique("");
                let material = MaterialParams::new(setup.pipeline, setup.variables, po.shader_params);
                proof {
                    self.materials.lemma_records();
                    assert(shared_under(self.materials@, location.atom()) is None);
                }
                Ok(MaterialHandle(self.materials.create(location, material)))
            },
            None => Err(Error::PipelineHandleInvalid(setup.pipeline)),
        }
    }

    /// Binds the uniform variable `field` of a material to `value`.
    pub fn update_material(&mut self, h: MaterialHandle, field: u64, value: UniformVariable) -> (r:
        Result<(), Error>)
        requires
            old(self).wf(),
        ensures
            final(self).wf(),
            final(self).pipelines() == old(self).pipelines(),
            match r {
                Ok(_) => {
                    let was = old(self).materials()@[h.0];
                    let is = final(self).materials()@[h.0];
                    &&& old(self).materials()@.dom().contains(h.0)
                    &&& final(self).materials()@ == old(self).materials()@.insert(h.0, is)
                    &&& is.rc == was.rc
                    &&& is.atom == was.atom
                    &&& is.value.pipeline == was.value.pipeline
                    &&& is.value.shader_params == was.value.shader_params
                    &&& rebound(was.value.variables@, is.value.variables@, field, value)
                },
                Err(e) => {
                    &&& !old(self).materials()@.dom().contains(h.0)
                    &&& e == Error::MaterialHandleInvalid(h)
                    &&& final(self).materials()@ == old(self).materials()@
                },
            },
            forall|x: Handle| old(self).materials().issued(x) == final(self).materials().issued(x),
    {
        match self.materials.get_mut(h.0) {
            Some(m) => {
                m.bind(field, value);
                Ok(())
            },
            None => Err(Error::MaterialHandleInvalid(h)),
        }
    }

    /// Drops a material. A mesh that still refers to it is drawn with the
    /// fallback material from then on.
    #[inline]
    pub fn delete_material(&mut self, handle: MaterialHandle)
        requires
            old(self).wf(),
        ensures
            final(self).wf(),
            final(self).pipelines() == old(self).pipelines(),
            final(self).materials()@ == counted_down(old(self).materials()@, handle.0),
            forall|x: Handle| old(self).materials().issued(x) == final(self).materials().issued(x),
    {
        self.materials.dec_rc(handle.0);
    }
}

} // verus!
