use vstd::prelude::*;

verus! {

/// One step of the work a frame hands to the graphics context.
#[derive(Clone, Copy, Debug, PartialEq, Eq, Structural)]
pub enum GpuCommand {
    /// Write the mesh's model matrix, flattened column-major, into its
    /// uniform buffer.
    WriteTransform,
    /// Begin a render pass.
    BeginPass,
    /// Bind the scene's pipeline.
    SetPipeline,
    /// Bind the mesh's texture at the given texture location.
    BindTexture { location: u32 },
    /// Bind the mesh's vertex, index and uniform buffers, in that order.
    BindBuffers,
    /// Draw `count` indices starting at index `first`.
    Draw { first: u32, count: u32 },
    /// End the render pass.
    EndPass,
    /// Submit the recorded pass to the graphics context.
    Submit,
}

/// A command together with the position of the mesh it acts on in the
/// scene's mesh list.
#[derive(Clone, Copy, Debug, PartialEq, Eq, Structural)]
pub struct FrameCommand {
    pub mesh: usize,
    pub command: GpuCommand,
}

/// The texture location the fragment shader samples from.
pub const TEXTURE_LOCATION: u32 = 0;

/// Indices drawn per mesh: the quad's two triangles.
pub const DRAW_INDEX_COUNT: u32 = 6;

/// The commands that draw one mesh. The texture is bound only when it has
/// finished loading; otherwise the pass goes on without it.
pub open spec fn draw_sequence(texture_loaded: bool) -> Seq<GpuCommand> {
    let head = seq![GpuCommand::BeginPass, GpuCommand::SetPipeline];
    let tail = seq![
        GpuCommand::BindBuffers,
        GpuCommand::Draw { first: 0, count: DRAW_INDEX_COUNT },
        GpuCommand::EndPass,
        GpuCommand::Submit,
    ];
    if texture_loaded {
        head + seq![GpuCommand::BindTexture { location: TEXTURE_LOCATION }] + tail
    } else {
        head + tail
    }
}

/// The commands for mesh `mesh` in one frame: write its transform, then
/// draw it.
pub open spec fn mesh_frame(mesh: usize, texture_loaded: bool) -> Seq<FrameCommand> {
    seq![GpuCommand::WriteTransform].add(draw_sequence(texture_loaded)).map_values(
        |c: GpuCommand| FrameCommand { mesh, command: c },
    )
}

/// The commands of one frame for a scene whose meshes' textures are loaded
/// as `loaded` says: each mesh in list order.
pub open spec fn frame_sequence(loaded: Seq<bool>) -> Seq<FrameCommand>
    decreases loaded.len(),
{
    if loaded.len() == 0 {
        seq![]
    } else {
        frame_sequence(loaded.drop_last()) + mesh_frame(
            (loaded.len() - 1) as usize,
            loaded.last(),
        )
    }
}

/// The commands that draw one mesh, given whether its texture has finished
/// loading.
pub fn draw_commands(texture_loaded: bool) -> (r: Vec<GpuCommand>)
    ensures
        r@ == draw_sequence(texture_loaded),
{
    let mut r: Vec<GpuCommand> = vec![GpuCommand::BeginPass, GpuCommand::SetPipeline];
    if texture_loaded {
        r.push(GpuCommand::BindTexture { location: TEXTURE_LOCATION });
    }
    r.push(GpuCommand::BindBuffers);
    r.push(GpuCommand::Draw { first: 0, count: DRAW_INDEX_COUNT });
    r.push(GpuCommand::EndPass);
    r.push(GpuCommand::Submit);
    assert(r@ =~= draw_sequence(texture_loaded));
    r
}

/// The commands of one frame: for each mesh in list order, write its
/// transform and draw it. `loaded[i]` tells whether the texture of mesh `i`
/// has finished loading.
pub fn frame_commands(loaded: &Vec<bool>) -> (r: Vec<FrameCommand>)
    ensures
        r@ == frame_sequence(loaded@),
{
    let mut r: Vec<FrameCommand> = Vec::new();
    let mut i: usize = 0;
    while i < loaded.len()
        invariant
            i <= loaded@.len(),
            r@ == frame_sequence(loaded@.subrange(0, i as int)),
        decreases loaded@.len() - i,
    {
        let mut cmds: Vec<GpuCommand> = vec![GpuCommand::WriteTransform];
        let mut draw = draw_commands(loaded[i]);
        cmds.append(&mut draw);
        let ghost before = r@;
        let mut j: usize = 0;
        while j < cmds.len()
            invariant
                j <= cmds@.len(),
                r@ == before + cmds@.subrange(0, j as int).map_values(
                    |c: GpuCommand| FrameCommand { mesh: i, command: c },
                ),
            decreases cmds@.len() - j,
        {
            r.push(FrameCommand { mesh: i, command: cmds[j] });
            assert(cmds@.subrange(0, j + 1) =~= cmds@.subrange(0, j as int).push(cmds@[j as int]));
            assert(r@ =~= before + cmds@.subrange(0, j + 1).map_values(
                |c: GpuCommand| FrameCommand { mesh: i, command: c },
            ));
            j = j + 1;
        }
        assert(cmds@.subrange(0, j as int) =~= cmds@);
        let ghost next = loaded@.subrange(0, i + 1);
        assert(next.drop_last() =~= loaded@.subrange(0, i as int));
        assert(r@ =~= frame_sequence(next));
        i = i + 1;
    }
    assert(loaded@.subrange(0, i as int) =~= loaded@);
    r
}

/// How many commands of `s` are `c`.
pub open spec fn count_command(s: Seq<FrameCommand>, c: GpuCommand) -> nat
    decreases s.len(),
{
    if s.len() == 0 {
        0
    } else {
        count_command(s.drop_last(), c) + if s.last().command == c {
            1nat
        } else {
            0nat
        }
    }
}

/// How many meshes have a loaded texture.
pub open spec fn count_loaded(loaded: Seq<bool>) -> nat
    decreases loaded.len(),
{
    if loaded.len() == 0 {
        0
    } else {
        count_loaded(loaded.drop_last()) + if loaded.last() {
            1nat
        } else {
            0nat
        }
    }
}

proof fn lemma_count_add(a: Seq<FrameCommand>, b: Seq<FrameCommand>, c: GpuCommand)
    ensures
        count_command(a + b, c) == count_command(a, c) + count_command(b, c),
    decreases b.len(),
{
    if b.len() == 0 {
        assert(a + b =~= a);
    } else {
        assert((a + b).drop_last() =~= a + b.drop_last());
        lemma_count_add(a, b.drop_last(), c);
    }
}

proof fn lemma_mesh_frame_counts(mesh: usize, texture_loaded: bool)
    ensures
        count_command(mesh_frame(mesh, texture_loaded), GpuCommand::WriteTransform) == 1,
        count_command(mesh_frame(mesh, texture_loaded), GpuCommand::Submit) == 1,
        count_command(
            mesh_frame(mesh, texture_loaded),
            GpuCommand::Draw { first: 0, count: DRAW_INDEX_COUNT },
        ) == 1,
        count_command(
            mesh_frame(mesh, texture_loaded),
            GpuCommand::BindTexture { location: TEXTURE_LOCATION },
        ) == if texture_loaded {
            1nat
        } else {
            0nat
        },
{
    let s = mesh_frame(mesh, texture_loaded);
    let n = s.len();
    reveal_with_fuel(count_command, 9);
    assert(s.drop_last() =~= s.subrange(0, n - 1));
    assert(s.drop_last().drop_last() =~= s.subrange(0, n - 2));
    assert(s.subrange(0, n - 2).drop_last() =~= s.subrange(0, n - 3));
    assert(s.subrange(0, n - 3).drop_last() =~= s.subrange(0, n - 4));
    assert(s.subrange(0, n - 4).drop_last() =~= s.subrange(0, n - 5));
    assert(s.subrange(0, n - 5).drop_last() =~= s.subrange(0, n - 6));
    assert(s.subrange(0, n - 6).drop_last() =~= s.subrange(0, n - 7));
    if texture_loaded {
        assert(s.subrange(0, n - 7).drop_last() =~= s.subrange(0, n - 8));
    }
}

/// One frame hands the graphics context, for a scene of `loaded.len()`
/// meshes: one transform write, one draw of the quad's six indices and one
/// submission per mesh, and one texture bind per mesh whose texture has
/// finished loading.
pub proof fn lemma_frame_counts(loaded: Seq<bool>)
    ensures
        count_command(frame_sequence(loaded), GpuCommand::WriteTransform) == loaded.len(),
        count_command(frame_sequence(loaded), GpuCommand::Submit) == loaded.len(),
        count_command(
            frame_sequence(loaded),
            GpuCommand::Draw { first: 0, count: DRAW_INDEX_COUNT },
        ) == loaded.len(),
        count_command(
            frame_sequence(loaded),
            GpuCommand::BindTexture { location: TEXTURE_LOCATION },
        ) == count_loaded(loaded),
    decreases loaded.len(),
{
    if loaded.len() > 0 {
        let prefix = loaded.drop_last();
        let last = mesh_frame((loaded.len() - 1) as usize, loaded.last());
        lemma_frame_counts(prefix);
        lemma_mesh_frame_counts((loaded.len() - 1) as usize, loaded.last());
        lemma_count_add(frame_sequence(prefix), last, GpuCommand::WriteTransform);
        lemma_count_add(frame_sequence(prefix), last, GpuCommand::Submit);
        lemma_count_add(
            frame_sequence(prefix),
            last,
            GpuCommand::Draw { first: 0, count: DRAW_INDEX_COUNT },
        );
        lemma_count_add(
            frame_sequence(prefix),
            last,
            GpuCommand::BindTexture { location: TEXTURE_LOCATION },
        );
    }
}

/// Whether the texture is loaded or not, a mesh is drawn and submitted; its
/// texture is bound exactly when it has finished loading.
pub proof fn lemma_texture_bind_iff_loaded(texture_loaded: bool)
    ensures
        draw_sequence(texture_loaded).contains(GpuCommand::Draw { first: 0, count: DRAW_INDEX_COUNT }),
        draw_sequence(texture_loaded).contains(GpuCommand::Submit),
        draw_sequence(texture_loaded).contains(GpuCommand::BindTexture { location: TEXTURE_LOCATION })
            <==> texture_loaded,
        forall|k: int|
            0 <= k < draw_sequence(texture_loaded).len() && (#[trigger] draw_sequence(
                texture_loaded,
            )[k] is BindTexture) ==> texture_loaded,
{
    let s = draw_sequence(texture_loaded);
    let bind = GpuCommand::BindTexture { location: TEXTURE_LOCATION };
    if texture_loaded {
        assert(s[2] == bind);
        assert(s[4] == GpuCommand::Draw { first: 0, count: DRAW_INDEX_COUNT });
        assert(s[6] == GpuCommand::Submit);
    } else {
        assert(s[3] == GpuCommand::Draw { first: 0, count: DRAW_INDEX_COUNT });
        assert(s[5] == GpuCommand::Submit);
        assert forall|k: int| 0 <= k < s.len() implies !(#[trigger] s[k] is BindTexture) by {}
    }
}

proof fn lemma_frame_meshes_below(loaded: Seq<bool>)
    requires
        loaded.len() <= usize::MAX,
    ensures
        forall|k: int|
            0 <= k < frame_sequence(loaded).len() ==> #[trigger] frame_sequence(loaded)[k].mesh
                < loaded.len(),
    decreases loaded.len(),
{
    if loaded.len() > 0 {
        lemma_frame_meshes_below(loaded.drop_last());
    }
}

/// In every frame, the texture of mesh `i` is bound exactly when it has
/// finished loading: a texture that is still pending is skipped, and once
/// it has loaded each later frame binds it.
pub proof fn lemma_frame_binds_loaded_textures(loaded: Seq<bool>, i: int)
    requires
        0 <= i < loaded.len() <= usize::MAX,
    ensures
        frame_sequence(loaded).contains(
            FrameCommand { mesh: i as usize, command: GpuCommand::BindTexture { location: TEXTURE_LOCATION } },
        ) <==> loaded[i],
    decreases loaded.len(),
{
    let bind = FrameCommand {
        mesh: i as usize,
        command: GpuCommand::BindTexture { location: TEXTURE_LOCATION },
    };
    let n = loaded.len() - 1;
    let prefix = frame_sequence(loaded.drop_last());
    let last = mesh_frame(n as usize, loaded.last());
    let all = frame_sequence(loaded);
    assert(all == prefix + last);
    lemma_texture_bind_iff_loaded(loaded.last());
    if i == n {
        lemma_frame_meshes_below(loaded.drop_last());
        if loaded[i] {
            let k = choose|k: int|
                0 <= k < draw_sequence(loaded.last()).len() && draw_sequence(loaded.last())[k]
                    == bind.command;
            assert(last[k + 1] == bind);
            assert(all[prefix.len() + k + 1] == bind);
        } else {
            assert forall|k: int| 0 <= k < all.len() implies all[k] != bind by {
                if k >= prefix.len() {
                    let j = k - prefix.len();
                    if j > 0 {
                        assert(draw_sequence(loaded.last())[j - 1] == last[j].command);
                    }
                } else {
                    assert(prefix[k].mesh < n);
                }
            }
        }
    } else {
        lemma_frame_binds_loaded_textures(loaded.drop_last(), i);
        assert(loaded.drop_last()[i] == loaded[i]);
        if prefix.contains(bind) {
            let k = choose|k: int| 0 <= k < prefix.len() && prefix[k] == bind;
            assert(all[k] == bind);
        }
        if all.contains(bind) {
            let k = choose|k: int| 0 <= k < all.len() && all[k] == bind;
            if k >= prefix.len() {
                assert(last[k - prefix.len()].mesh == n);
            } else {
                assert(prefix[k] == bind);
            }
        }
    }
}

} // verus!
