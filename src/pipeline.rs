//! The shader stages and shader groups of the ray-tracing pipeline, and the
//! group index each shader ends up at.
use vstd::prelude::*;

use crate::errors::VulkanError;
use crate::vk;

verus! {

/// The kind of a shader group (`VkRayTracingShaderGroupTypeNV`).
pub const SHADER_GROUP_GENERAL: u32 = 0;
pub const SHADER_GROUP_TRIANGLES_HIT: u32 = 1;

/// One shader stage of the pipeline: its stage flag and the shader module
/// (as a raw handle) it runs.
#[derive(Clone, Copy, Debug, PartialEq, Eq, Structural)]
pub struct ShaderStageInfo {
    pub stage: u32,
    pub module: u64,
}

/// One shader group: its kind and the stage index of each of its shaders,
/// `vk::SHADER_UNUSED` where it has none.
#[derive(Clone, Copy, Debug, PartialEq, Eq, Structural)]
pub struct ShaderGroup {
    pub ty: u32,
    pub general_shader: u32,
    pub closest_hit_shader: u32,
    pub any_hit_shader: u32,
    pub intersection_shader: u32,
}

/// The group made for a shader of `stage` placed at stage index `index`, or
/// the empty hit group where there is no shader.
pub open spec fn group_for(has_shader: bool, stage: u32, index: u32) -> ShaderGroup {
    let unused = ShaderGroup {
        ty: SHADER_GROUP_TRIANGLES_HIT,
        general_shader: vk::SHADER_UNUSED,
        closest_hit_shader: vk::SHADER_UNUSED,
        any_hit_shader: vk::SHADER_UNUSED,
        intersection_shader: vk::SHADER_UNUSED,
    };
    if !has_shader {
        unused
    } else if stage == vk::SHADER_STAGE_ANY_HIT {
        ShaderGroup { any_hit_shader: index, ..unused }
    } else if stage == vk::SHADER_STAGE_CLOSEST_HIT {
        ShaderGroup { closest_hit_shader: index, ..unused }
    } else if stage == vk::SHADER_STAGE_INTERSECTION {
        ShaderGroup { intersection_shader: index, ..unused }
    } else {
        ShaderGroup { ty: SHADER_GROUP_GENERAL, general_shader: index, ..unused }
    }
}

/// Adds a shader group for `shader` (a stage too, where there is a shader)
/// and returns the new group's index.
pub fn add_shader_stage(
    shader: Option<u64>,
    stage: u32,
    stages: &mut Vec<ShaderStageInfo>,
    groups: &mut Vec<ShaderGroup>,
) -> (r: u32)
    requires
        old(stages).len() < u32::MAX,
        old(groups).len() < u32::MAX,
    ensures
        r == old(groups).len(),
        final(stages)@ == match shader {
            Some(m) => old(stages)@.push(ShaderStageInfo { stage, module: m }),
            None => old(stages)@,
        },
        final(groups)@ == old(groups)@.push(
            group_for(shader is Some, stage, old(stages).len() as u32),
        ),
{
    let index = stages.len() as u32;
    let unused = ShaderGroup {
        ty: SHADER_GROUP_TRIANGLES_HIT,
        general_shader: vk::SHADER_UNUSED,
        closest_hit_shader: vk::SHADER_UNUSED,
        any_hit_shader: vk::SHADER_UNUSED,
        intersection_shader: vk::SHADER_UNUSED,
    };
    let group = match shader {
        Some(module) => {
            stages.push(ShaderStageInfo { stage, module });
            if stage == vk::SHADER_STAGE_ANY_HIT {
                ShaderGroup { any_hit_shader: index, ..unused }
            } else if stage == vk::SHADER_STAGE_CLOSEST_HIT {
                ShaderGroup { closest_hit_shader: index, ..unused }
            } else if stage == vk::SHADER_STAGE_INTERSECTION {
                ShaderGroup { intersection_shader: index, ..unused }
            } else {
                ShaderGroup { ty: SHADER_GROUP_GENERAL, general_shader: index, ..unused }
            }
        },
        None => unused,
    };
    let group_index = groups.len() as u32;
    groups.push(group);
    group_index
}

/// The shader stages and groups of a ray-tracing pipeline, with the group
/// index of each of its shaders.
#[derive(Clone, Debug)]
pub struct Pipeline {
    pub stages: Vec<ShaderStageInfo>,
    pub groups: Vec<ShaderGroup>,
    pub max_recursion_depth: u32,
    pub ray_gen_index: u32,
    pub miss_index: u32,
    pub shadow_miss_index: u32,
    pub hit_group_index: u32,
    pub shadow_hit_group_index: u32,
}

/// Collects the shader modules (raw handles) of a ray-tracing pipeline.
#[derive(Clone, Copy, Debug)]
pub struct PipelineBuilder {
    pub ray_gen_shader: Option<u64>,
    pub miss_shader: Option<u64>,
    pub shadow_miss_shader: Option<u64>,
    pub hit_shader: Option<u64>,
    pub max_recursion_depth: u32,
}

/// The general group of a ray-generation or miss shader at stage index
/// `index`.
pub open spec fn general_group(index: u32) -> ShaderGroup {
    group_for(true, vk::SHADER_STAGE_RAYGEN, index)
}

impl PipelineBuilder {
    pub fn new() -> (r: PipelineBuilder)
        ensures
            r.ray_gen_shader is None,
            r.miss_shader is None,
            r.shadow_miss_shader is None,
            r.hit_shader is None,
            r.max_recursion_depth == 0,
    {
        PipelineBuilder {
            ray_gen_shader: None,
            miss_shader: None,
            shadow_miss_shader: None,
            hit_shader: None,
            max_recursion_depth: 0,
        }
    }

    pub fn with_ray_gen_shader(self, module: u64) -> (r: PipelineBuilder)
        ensures
            r == (PipelineBuilder { ray_gen_shader: Some(module), ..self }),
    {
        PipelineBuilder { ray_gen_shader: Some(module), ..self }
    }

    pub fn with_miss_shader(self, module: u64) -> (r: PipelineBuilder)
        ensures
            r == (PipelineBuilder { miss_shader: Some(module), ..self }),
    {
        PipelineBuilder { miss_shader: Some(module), ..self }
    }

    pub fn with_shadow_miss_shader(self, module: u64) -> (r: PipelineBuilder)
        ensures
            r == (PipelineBuilder { shadow_miss_shader: Some(module), ..self }),
    {
        PipelineBuilder { shadow_miss_shader: Some(module), ..self }
    }

    pub fn with_hit_shader(self, module: u64) -> (r: PipelineBuilder)
        ensures
            r == (PipelineBuilder { hit_shader: Some(module), ..self }),
    {
        PipelineBuilder { hit_shader: Some(module), ..self }
    }

    pub fn with_max_recursion_depth(self, depth: u32) -> (r: PipelineBuilder)
        ensures
            r == (PipelineBuilder { max_recursion_depth: depth, ..self }),
    {
        PipelineBuilder { max_recursion_depth: depth, ..self }
    }

    /// Lays out the stages and groups: ray generation, miss, shadow miss and
    /// closest hit each get a stage and a group, in that order, followed by
    /// an empty hit group for shadow rays. Every shader is mandatory.
    pub fn build(self) -> (r: Result<Pipeline, VulkanError>)
        ensures
            r is Ok <==> (self.ray_gen_shader is Some && self.miss_shader is Some
                && self.shadow_miss_shader is Some && self.hit_shader is Some),
            r matches Err(e) ==> e is PipelineError,
            r matches Ok(p) ==> {
                &&& p.stages@ == seq![
                    ShaderStageInfo { stage: vk::SHADER_STAGE_RAYGEN, module: self.ray_gen_shader->0 },
                    ShaderStageInfo { stage: vk::SHADER_STAGE_MISS, module: self.miss_shader->0 },
                    ShaderStageInfo { stage: vk::SHADER_STAGE_MISS, module: self.shadow_miss_shader->0 },
                    ShaderStageInfo { stage: vk::SHADER_STAGE_CLOSEST_HIT, module: self.hit_shader->0 },
                ]
                &&& p.groups@ == seq![
                    general_group(0),
                    general_group(1),
                    general_group(2),
                    group_for(true, vk::SHADER_STAGE_CLOSEST_HIT, 3),
                    group_for(false, 0, 4),
                ]
                &&& p.ray_gen_index == 0
                &&& p.miss_index == 1
                &&& p.shadow_miss_index == 2
                &&& p.hit_group_index == 3
                &&& p.shadow_hit_group_index == 4
                &&& p.max_recursion_depth == self.max_recursion_depth
            },
    {
        if self.ray_gen_shader.is_none() {
            return Err(VulkanError::PipelineError("missing ray generation shader".to_string()));
        }
        if self.miss_shader.is_none() {
            return Err(VulkanError::PipelineError("missing miss shader".to_string()));
        }
        if self.shadow_miss_shader.is_none() {
            return Err(VulkanError::PipelineError("missing shadow miss shader".to_string()));
        }
        if self.hit_shader.is_none() {
            return Err(VulkanError::PipelineError("missing closest hit shader".to_string()));
        }
        let mut stages: Vec<ShaderStageInfo> = Vec::new();
        let mut groups: Vec<ShaderGroup> = Vec::new();
        let ray_gen_index = add_shader_stage(
            self.ray_gen_shader,
            vk::SHADER_STAGE_RAYGEN,
            &mut stages,
            &mut groups,
        );
        let miss_index = add_shader_stage(
            self.miss_shader,
            vk::SHADER_STAGE_MISS,
            &mut stages,
            &mut groups,
        );
        let shadow_miss_index = add_shader_stage(
            self.shadow_miss_shader,
            vk::SHADER_STAGE_MISS,
            &mut stages,
            &mut groups,
        );
        let hit_group_index = add_shader_stage(
            self.hit_shader,
            vk::SHADER_STAGE_CLOSEST_HIT,
            &mut stages,
            &mut groups,
        );
        let shadow_hit_group_index = add_shader_stage(None, 0, &mut stages, &mut groups);
        assert(stages@ =~= seq![
            ShaderStageInfo { stage: vk::SHADER_STAGE_RAYGEN, module: self.ray_gen_shader->0 },
            ShaderStageInfo { stage: vk::SHADER_STAGE_MISS, module: self.miss_shader->0 },
            ShaderStageInfo { stage: vk::SHADER_STAGE_MISS, module: self.shadow_miss_shader->0 },
            ShaderStageInfo { stage: vk::SHADER_STAGE_CLOSEST_HIT, module: self.hit_shader->0 },
        ]);
        assert(groups@ =~= seq![
            general_group(0),
            general_group(1),
            general_group(2),
            group_for(true, vk::SHADER_STAGE_CLOSEST_HIT, 3),
            group_for(false, 0, 4),
        ]);
        Ok(
            Pipeline {
                stages,
                groups,
                max_recursion_depth: self.max_recursion_depth,
                ray_gen_index,
                miss_index,
                shadow_miss_index,
                hit_group_index,
                shadow_hit_group_index,
            },
        )
    }
}

} // verus!
