//! The sections of the blit, as the profiler shows them.

use vstd::prelude::*;

verus! {

/// A section of the blit.
#[derive(Clone, Copy, Debug, PartialEq, Eq, Structural)]
pub enum Marker {
    CustomBlit,
    Resources,
    ResourcesSharedTexture,
    ResourcesPixelBufferCreate,
    ResourcesMetalTextureCreate,
    ResourcesCommitUnity,
    ResourcesCommandBuffer,
    Commands,
    CommandsEncoderCreate,
    CommandsVertUniforms,
    CommandsRecord,
    CommandsEndEncoding,
    CommandsCompletionHandler,
    Submit,
}

impl Marker {
    pub open spec fn spec_name(self) -> Seq<char> {
        match self {
            Marker::CustomBlit => "unienc_apple_vt::metal::custom_blit"@,
            Marker::Resources => "unienc_apple_vt::metal::custom_blit::resources"@,
            Marker::ResourcesSharedTexture =>
                "unienc_apple_vt::metal::custom_blit::resources::shared_texture"@,
            Marker::ResourcesPixelBufferCreate =>
                "unienc_apple_vt::metal::custom_blit::resources::pixel_buffer_create"@,
            Marker::ResourcesMetalTextureCreate =>
                "unienc_apple_vt::metal::custom_blit::resources::metal_texture_create"@,
            Marker::ResourcesCommitUnity =>
                "unienc_apple_vt::metal::custom_blit::resources::commit_unity"@,
            Marker::ResourcesCommandBuffer =>
                "unienc_apple_vt::metal::custom_blit::resources::command_buffer"@,
            Marker::Commands => "unienc_apple_vt::metal::custom_blit::commands"@,
            Marker::CommandsEncoderCreate =>
                "unienc_apple_vt::metal::custom_blit::commands::encoder_create"@,
            Marker::CommandsVertUniforms =>
                "unienc_apple_vt::metal::custom_blit::commands::vert_uniforms"@,
            Marker::CommandsRecord => "unienc_apple_vt::metal::custom_blit::commands::record"@,
            Marker::CommandsEndEncoding =>
                "unienc_apple_vt::metal::custom_blit::commands::end_encoding"@,
            Marker::CommandsCompletionHandler =>
                "unienc_apple_vt::metal::custom_blit::commands::completion_handler"@,
            Marker::Submit => "unienc_apple_vt::metal::custom_blit::submit"@,
        }
    }

    /// The name under which the profiler lists the section.
    pub fn name(self) -> (name: &'static str)
        ensures
            name@ == self.spec_name(),
    {
        match self {
            Marker::CustomBlit => "unienc_apple_vt::metal::custom_blit",
            Marker::Resources => "unienc_apple_vt::metal::custom_blit::resources",
            Marker::ResourcesSharedTexture =>
                "unienc_apple_vt::metal::custom_blit::resources::shared_texture",
            Marker::ResourcesPixelBufferCreate =>
                "unienc_apple_vt::metal::custom_blit::resources::pixel_buffer_create",
            Marker::ResourcesMetalTextureCreate =>
                "unienc_apple_vt::metal::custom_blit::resources::metal_texture_create",
            Marker::ResourcesCommitUnity =>
                "unienc_apple_vt::metal::custom_blit::resources::commit_unity",
            Marker::ResourcesCommandBuffer =>
                "unienc_apple_vt::metal::custom_blit::resources::command_buffer",
            Marker::Commands => "unienc_apple_vt::metal::custom_blit::commands",
            Marker::CommandsEncoderCreate =>
                "unienc_apple_vt::metal::custom_blit::commands::encoder_create",
            Marker::CommandsVertUniforms =>
                "unienc_apple_vt::metal::custom_blit::commands::vert_uniforms",
            Marker::CommandsRecord => "unienc_apple_vt::metal::custom_blit::commands::record",
            Marker::CommandsEndEncoding =>
                "unienc_apple_vt::metal::custom_blit::commands::end_encoding",
            Marker::CommandsCompletionHandler =>
                "unienc_apple_vt::metal::custom_blit::commands::completion_handler",
            Marker::Submit => "unienc_apple_vt::metal::custom_blit::submit",
        }
    }

    /// Every section, in the order in which they are announced to the profiler.
    pub open spec fn spec_all() -> Seq<Marker> {
        seq![
            Marker::CustomBlit,
            Marker::Resources,
            Marker::ResourcesSharedTexture,
            Marker::ResourcesPixelBufferCreate,
            Marker::ResourcesMetalTextureCreate,
            Marker::ResourcesCommitUnity,
            Marker::ResourcesCommandBuffer,
            Marker::Commands,
            Marker::CommandsEncoderCreate,
            Marker::CommandsVertUniforms,
            Marker::CommandsRecord,
            Marker::CommandsEndEncoding,
            Marker::CommandsCompletionHandler,
            Marker::Submit,
        ]
    }

    /// Every section, in the order in which they are announced to the profiler.
    pub fn all() -> (markers: Vec<Marker>)
        ensures
            markers@ == Self::spec_all(),
    {
        let markers: Vec<Marker> = vec![
            Marker::CustomBlit,
            Marker::Resources,
            Marker::ResourcesSharedTexture,
            Marker::ResourcesPixelBufferCreate,
            Marker::ResourcesMetalTextureCreate,
            Marker::ResourcesCommitUnity,
            Marker::ResourcesCommandBuffer,
            Marker::Commands,
            Marker::CommandsEncoderCreate,
            Marker::CommandsVertUniforms,
            Marker::CommandsRecord,
            Marker::CommandsEndEncoding,
            Marker::CommandsCompletionHandler,
            Marker::Submit,
        ];
        assert(markers@ =~= Self::spec_all());
        markers
    }
}

/// No two sections go by the same name.
pub proof fn law_names_tell_markers_apart(a: Marker, b: Marker)
    ensures
        a.spec_name() == b.spec_name() <==> a == b,
{
    reveal_strlit("unienc_apple_vt::metal::custom_blit");
    reveal_strlit("unienc_apple_vt::metal::custom_blit::submit");
    reveal_strlit("unienc_apple_vt::metal::custom_blit::commands");
    reveal_strlit("unienc_apple_vt::metal::custom_blit::resources");
    reveal_strlit("unienc_apple_vt::metal::custom_blit::commands::record");
    reveal_strlit("unienc_apple_vt::metal::custom_blit::commands::end_encoding");
    reveal_strlit("unienc_apple_vt::metal::custom_blit::commands::vert_uniforms");
    reveal_strlit("unienc_apple_vt::metal::custom_blit::resources::commit_unity");
    reveal_strlit("unienc_apple_vt::metal::custom_blit::commands::encoder_create");
    reveal_strlit("unienc_apple_vt::metal::custom_blit::resources::command_buffer");
    reveal_strlit("unienc_apple_vt::metal::custom_blit::resources::shared_texture");
    reveal_strlit("unienc_apple_vt::metal::custom_blit::commands::completion_handler");
    reveal_strlit("unienc_apple_vt::metal::custom_blit::resources::pixel_buffer_create");
    reveal_strlit("unienc_apple_vt::metal::custom_blit::resources::metal_texture_create");
    let x = a.spec_name();
    let y = b.spec_name();
    assert(x.len() == y.len() && x[37] == y[37] && x[48] == y[48] ==> a == b);
}

/// Every section is announced, and none twice.
pub proof fn law_every_marker_is_announced_once(marker: Marker)
    ensures
        Marker::spec_all().contains(marker),
        Marker::spec_all().no_duplicates(),
{
    let all = Marker::spec_all();
    let at: int = match marker {
        Marker::CustomBlit => 0,
        Marker::Resources => 1,
        Marker::ResourcesSharedTexture => 2,
        Marker::ResourcesPixelBufferCreate => 3,
        Marker::ResourcesMetalTextureCreate => 4,
        Marker::ResourcesCommitUnity => 5,
        Marker::ResourcesCommandBuffer => 6,
        Marker::Commands => 7,
        Marker::CommandsEncoderCreate => 8,
        Marker::CommandsVertUniforms => 9,
        Marker::CommandsRecord => 10,
        Marker::CommandsEndEncoding => 11,
        Marker::CommandsCompletionHandler => 12,
        Marker::Submit => 13,
    };
    assert(all[at] == marker);
}

/// A section's name says where it stands: it is that of the whole blit, and behind it the path of
/// the section within.
pub proof fn law_name_is_the_path_of_the_section(marker: Marker, name: &'static str)
    requires
        call_ensures(Marker::name, (marker,), name),
    ensures
        name@ == "unienc_apple_vt::metal::custom_blit"@ + match marker {
            Marker::CustomBlit => ""@,
            Marker::Resources => "::resources"@,
            Marker::ResourcesSharedTexture => "::resources::shared_texture"@,
            Marker::ResourcesPixelBufferCreate => "::resources::pixel_buffer_create"@,
            Marker::ResourcesMetalTextureCreate => "::resources::metal_texture_create"@,
            Marker::ResourcesCommitUnity => "::resources::commit_unity"@,
            Marker::ResourcesCommandBuffer => "::resources::command_buffer"@,
            Marker::Commands => "::commands"@,
            Marker::CommandsEncoderCreate => "::commands::encoder_create"@,
            Marker::CommandsVertUniforms => "::commands::vert_uniforms"@,
            Marker::CommandsRecord => "::commands::record"@,
            Marker::CommandsEndEncoding => "::commands::end_encoding"@,
            Marker::CommandsCompletionHandler => "::commands::completion_handler"@,
            Marker::Submit => "::submit"@,
        },
{
    reveal_strlit("");
    reveal_strlit("::resources");
    reveal_strlit("::resources::shared_texture");
    reveal_strlit("::resources::pixel_buffer_create");
    reveal_strlit("::resources::metal_texture_create");
    reveal_strlit("::resources::commit_unity");
    reveal_strlit("::resources::command_buffer");
    reveal_strlit("::commands");
    reveal_strlit("::commands::encoder_create");
    reveal_strlit("::commands::vert_uniforms");
    reveal_strlit("::commands::record");
    reveal_strlit("::commands::end_encoding");
    reveal_strlit("::commands::completion_handler");
    reveal_strlit("::submit");
    reveal_strlit("unienc_apple_vt::metal::custom_blit");
    reveal_strlit("unienc_apple_vt::metal::custom_blit::submit");
    reveal_strlit("unienc_apple_vt::metal::custom_blit::commands");
    reveal_strlit("unienc_apple_vt::metal::custom_blit::resources");
    reveal_strlit("unienc_apple_vt::metal::custom_blit::commands::record");
    reveal_strlit("unienc_apple_vt::metal::custom_blit::commands::end_encoding");
    reveal_strlit("unienc_apple_vt::metal::custom_blit::commands::vert_uniforms");
    reveal_strlit("unienc_apple_vt::metal::custom_blit::resources::commit_unity");
    reveal_strlit("unienc_apple_vt::metal::custom_blit::commands::encoder_create");
    reveal_strlit("unienc_apple_vt::metal::custom_blit::resources::command_buffer");
    reveal_strlit("unienc_apple_vt::metal::custom_blit::resources::shared_texture");
    reveal_strlit("unienc_apple_vt::metal::custom_blit::commands::completion_handler");
    reveal_strlit("unienc_apple_vt::metal::custom_blit::resources::pixel_buffer_create");
    reveal_strlit("unienc_apple_vt::metal::custom_blit::resources::metal_texture_create");
}

} // verus!
