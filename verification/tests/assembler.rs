use amethyst_imgui::assembler::{assemble, counts_add_up, index_count, vertex_count};
use amethyst_imgui::pass::DrawImguiDesc;
use amethyst_imgui::color::ImguiColor;
use amethyst_imgui::draw_data::{
    CallbackRef, ClipRect, DrawCmd, DrawList, DrawVert, ImguiArgs, Rect, TextureId,
};

fn vert(n: u32) -> DrawVert {
    DrawVert { pos: (n, n + 1), uv: (n + 2, n + 3), col: [1, 2, 3, 4] }
}

fn elements(count: usize, clip: (i32, i32, i32, i32), texture_id: u32) -> DrawCmd {
    DrawCmd::Elements {
        count,
        clip_rect: ClipRect { left: clip.0, top: clip.1, right: clip.2, bottom: clip.3 },
        texture_id,
    }
}

fn quad(texture_id: u32) -> DrawList {
    DrawList {
        vtx_buffer: vec![vert(0), vert(10), vert(20), vert(30)],
        idx_buffer: vec![0, 1, 2, 0, 2, 3],
        cmd_buffer: vec![elements(6, (0, 0, 100, 50), texture_id)],
    }
}

#[test]
fn assemble_nothing_gives_nothing() {
    let out = assemble(&Vec::new()).unwrap();
    assert!(out.vertices.is_empty());
    assert!(out.indices.is_empty());
    assert!(out.commands.is_empty());
    assert!(out.callbacks.is_empty());
}

#[test]
fn assemble_one_quad() {
    let out = assemble(&vec![quad(9)]).unwrap();
    assert_eq!(out.vertices.len(), 4);
    assert_eq!(out.indices, vec![0, 1, 2, 0, 2, 3]);
    assert_eq!(out.commands.len(), 1);
    let c = &out.commands[0];
    assert_eq!(c.vertex_range, 0..4);
    assert_eq!(c.index_range, 0..6);
    assert_eq!(c.scissor, Rect { x: 0, y: 0, w: 100, h: 50 });
    assert_eq!(c.texture_id, TextureId(9));
}

#[test]
fn assemble_converts_vertices() {
    let out = assemble(&vec![quad(1)]).unwrap();
    assert_eq!(
        out.vertices[1],
        ImguiArgs { position: (10, 11), tex_coord: (12, 13), color: ImguiColor(0x0403_0201) }
    );
}

#[test]
fn assemble_counts_are_sums() {
    let lists = vec![
        quad(1),
        DrawList {
            vtx_buffer: vec![vert(1), vert(2), vert(3)],
            idx_buffer: vec![0, 1, 2],
            cmd_buffer: vec![elements(3, (0, 0, 1, 1), 1)],
        },
        DrawList { vtx_buffer: vec![], idx_buffer: vec![], cmd_buffer: vec![DrawCmd::ResetRenderState] },
        DrawList { vtx_buffer: vec![vert(9)], idx_buffer: vec![], cmd_buffer: vec![] },
        quad(2),
    ];
    let out = assemble(&lists).unwrap();
    assert_eq!(out.vertices.len(), 12);
    assert_eq!(out.indices.len(), 15);
    assert_eq!(vertex_count(&lists), Some(12));
    assert_eq!(index_count(&lists), Some(15));
}

#[test]
fn assemble_rewrites_ranges_by_running_totals() {
    let lists = vec![
        quad(1),
        DrawList {
            vtx_buffer: vec![vert(1), vert(2), vert(3)],
            idx_buffer: vec![0, 1, 2],
            cmd_buffer: vec![elements(3, (5, 6, 25, 36), 7)],
        },
        quad(2),
    ];
    let out = assemble(&lists).unwrap();
    assert_eq!(out.commands.len(), 3);
    assert_eq!(out.commands[0].vertex_range, 0..4);
    assert_eq!(out.commands[0].index_range, 0..6);
    assert_eq!(out.commands[1].vertex_range, 4..7);
    assert_eq!(out.commands[1].index_range, 6..9);
    assert_eq!(out.commands[1].scissor, Rect { x: 5, y: 6, w: 20, h: 30 });
    assert_eq!(out.commands[2].vertex_range, 7..11);
    assert_eq!(out.commands[2].index_range, 9..15);
    assert_eq!(out.indices, vec![0, 1, 2, 0, 2, 3, 0, 1, 2, 0, 1, 2, 0, 2, 3]);
}

#[test]
fn assemble_ranges_stay_inside_buffers() {
    let lists = vec![quad(1), quad(2), quad(3)];
    let out = assemble(&lists).unwrap();
    for c in &out.commands {
        assert!(c.vertex_range.start <= c.vertex_range.end);
        assert!(c.vertex_range.end as usize <= out.vertices.len());
        assert!(c.index_range.start <= c.index_range.end);
        assert!(c.index_range.end as usize <= out.indices.len());
    }
    assert_eq!(out.commands[0].vertex_range.start, 0);
    assert_eq!(out.commands[0].vertex_range.end, out.commands[1].vertex_range.start);
    assert_eq!(out.commands[1].vertex_range.end, out.commands[2].vertex_range.start);
    assert_eq!(out.commands[2].vertex_range.end as usize, out.vertices.len());
}

#[test]
fn assemble_commands_of_one_list_partition_its_indices() {
    let list = DrawList {
        vtx_buffer: vec![vert(1), vert(2), vert(3)],
        idx_buffer: vec![0, 1, 2, 2, 1, 0],
        cmd_buffer: vec![
            elements(2, (0, 0, 10, 10), 1),
            DrawCmd::ResetRenderState,
            elements(3, (10, 10, 20, 20), 2),
            DrawCmd::RawCallback,
            elements(1, (0, 0, 5, 5), 3),
        ],
    };
    let out = assemble(&vec![quad(5), list, quad(6)]).unwrap();
    assert_eq!(out.commands.len(), 5);
    assert_eq!(out.commands[0].index_range, 0..6);
    assert_eq!(out.commands[1].index_range, 6..8);
    assert_eq!(out.commands[2].index_range, 8..11);
    assert_eq!(out.commands[3].index_range, 11..12);
    assert_eq!(out.commands[4].index_range, 12..18);
    assert_eq!(out.commands[1].vertex_range, 4..7);
    assert_eq!(out.commands[2].vertex_range, 4..7);
    assert_eq!(out.commands[3].vertex_range, 4..7);
    assert_eq!(out.commands[4].vertex_range, 7..11);
    assert_eq!(out.commands[3].texture_id, TextureId(3));
}

#[test]
fn assemble_two_commands_of_six_over_twelve_indices() {
    let list = DrawList {
        vtx_buffer: vec![vert(0), vert(1), vert(2), vert(3)],
        idx_buffer: vec![0, 1, 2, 0, 2, 3, 0, 1, 2, 0, 2, 3],
        cmd_buffer: vec![elements(6, (0, 0, 100, 50), 1), elements(6, (0, 0, 100, 50), 1)],
    };
    let out = assemble(&vec![list.clone()]).unwrap();
    assert_eq!(out.commands.len(), 2);
    assert_eq!(out.commands[0].index_range, 0..6);
    assert_eq!(out.commands[1].index_range, 6..12);
    assert_eq!(out.commands[0].vertex_range, 0..4);
    assert_eq!(out.commands[1].vertex_range, 0..4);

    let mut pass = DrawImguiDesc::new().build(1);
    pass.prepare(&vec![list], 0, (0, 0), &Vec::new()).unwrap();
    let waiting = pass.waiting_commands();
    assert_eq!(waiting.len(), 2);
    assert_eq!(waiting[0].index_range, 0..6);
    assert_eq!(waiting[1].index_range, 6..12);
}

#[test]
fn index_ranges_follow_one_another_through_the_frame() {
    let empty = DrawList { vtx_buffer: vec![vert(1)], idx_buffer: vec![], cmd_buffer: vec![DrawCmd::RawCallback] };
    let pair = DrawList {
        vtx_buffer: vec![vert(1), vert(2)],
        idx_buffer: vec![0, 1, 1, 0],
        cmd_buffer: vec![elements(1, (0, 0, 1, 1), 1), elements(3, (0, 0, 1, 1), 1)],
    };
    let out = assemble(&vec![quad(1), empty, pair, quad(2)]).unwrap();
    assert_eq!(out.commands[0].index_range.start, 0);
    for w in out.commands.windows(2) {
        assert_eq!(w[0].index_range.end, w[1].index_range.start);
    }
    assert_eq!(out.commands.last().unwrap().index_range.end as usize, out.indices.len());
    for w in out.commands.windows(2) {
        assert!(w[0].vertex_range.start <= w[1].vertex_range.start);
    }
}

#[test]
fn commands_of_a_list_whose_counts_do_not_add_up_take_its_whole_span() {
    let short = DrawList {
        vtx_buffer: vec![vert(1)],
        idx_buffer: vec![0, 0, 0],
        cmd_buffer: vec![elements(2, (0, 0, 1, 1), 1)],
    };
    let long = DrawList {
        vtx_buffer: vec![vert(1)],
        idx_buffer: vec![0, 0, 0],
        cmd_buffer: vec![elements(2, (0, 0, 1, 1), 1), elements(2, (0, 0, 1, 1), 1)],
    };
    let huge = DrawList {
        vtx_buffer: vec![vert(1)],
        idx_buffer: vec![0, 0, 0],
        cmd_buffer: vec![elements(1, (0, 0, 1, 1), 1), elements(usize::MAX, (0, 0, 1, 1), 1)],
    };
    for bad in [short, long, huge] {
        assert!(!counts_add_up(&bad));
        let drawn = bad.cmd_buffer.len();
        let out = assemble(&vec![quad(1), bad, quad(2)]).unwrap();
        assert_eq!(out.vertices.len(), 9);
        assert_eq!(out.indices.len(), 15);
        assert_eq!(out.commands.len(), drawn + 2);
        assert_eq!(out.commands[0].index_range, 0..6);
        for c in &out.commands[1..=drawn] {
            assert_eq!(c.index_range, 6..9);
            assert_eq!(c.vertex_range, 4..5);
        }
        assert_eq!(out.commands[drawn + 1].index_range, 9..15);
        assert_eq!(out.commands[drawn + 1].vertex_range, 5..9);
    }
    assert!(counts_add_up(&quad(1)));
}

#[test]
fn list_with_only_a_raw_callback_is_assembled_without_commands() {
    let list = DrawList {
        vtx_buffer: vec![vert(1), vert(2), vert(3)],
        idx_buffer: vec![0, 1, 2],
        cmd_buffer: vec![DrawCmd::RawCallback],
    };
    assert!(!counts_add_up(&list));
    let out = assemble(&vec![list]).unwrap();
    assert_eq!(out.vertices.len(), 3);
    assert_eq!(out.indices, vec![0, 1, 2]);
    assert!(out.commands.is_empty());
    assert_eq!(out.callbacks, vec![CallbackRef { list: 0, command: 0 }]);
}

#[test]
fn one_draw_of_three_over_six_indices_gives_one_command() {
    let mut list = quad(7);
    list.cmd_buffer = vec![elements(3, (0, 0, 100, 50), 7)];
    let out = assemble(&vec![list]).unwrap();
    assert_eq!(out.commands.len(), 1);
    assert_eq!(out.commands[0].index_range, 0..6);
    assert_eq!(out.commands[0].vertex_range, 0..4);
    assert_eq!(out.commands[0].texture_id, TextureId(7));
    assert_eq!(out.commands[0].scissor, Rect { x: 0, y: 0, w: 100, h: 50 });
}

#[test]
fn list_whose_counts_add_up_is_partitioned_beside_one_whose_do_not() {
    let callback_only = DrawList {
        vtx_buffer: vec![vert(1)],
        idx_buffer: vec![0, 0, 0],
        cmd_buffer: vec![DrawCmd::RawCallback],
    };
    let pair = DrawList {
        vtx_buffer: vec![vert(1), vert(2)],
        idx_buffer: vec![0, 1, 1, 0],
        cmd_buffer: vec![elements(1, (0, 0, 1, 1), 1), elements(3, (0, 0, 1, 1), 1)],
    };
    let out = assemble(&vec![quad(1), callback_only, pair]).unwrap();
    assert_eq!(out.indices.len(), 13);
    assert_eq!(out.vertices.len(), 7);
    assert_eq!(out.commands.len(), 3);
    assert_eq!(out.commands[0].index_range, 0..6);
    assert_eq!(out.commands[1].index_range, 9..10);
    assert_eq!(out.commands[2].index_range, 10..13);
    assert_eq!(out.commands[1].vertex_range, 5..7);
}

#[test]
fn assemble_keeps_command_order() {
    let lists = vec![
        DrawList {
            vtx_buffer: vec![vert(1)],
            idx_buffer: vec![0, 0],
            cmd_buffer: vec![
                elements(1, (0, 0, 1, 1), 11),
                DrawCmd::RawCallback,
                elements(1, (0, 0, 2, 2), 12),
                DrawCmd::ResetRenderState,
            ],
        },
        DrawList {
            vtx_buffer: vec![vert(2)],
            idx_buffer: vec![0],
            cmd_buffer: vec![DrawCmd::ResetRenderState, elements(1, (0, 0, 3, 3), 13)],
        },
    ];
    let out = assemble(&lists).unwrap();
    let ids: Vec<u32> = out.commands.iter().map(|c| c.texture_id.0).collect();
    assert_eq!(ids, vec![11, 12, 13]);
    let widths: Vec<i16> = out.commands.iter().map(|c| c.scissor.w).collect();
    assert_eq!(widths, vec![1, 2, 3]);
}

#[test]
fn assemble_reports_raw_callbacks_and_draws_nothing_for_them() {
    let lists = vec![
        DrawList {
            vtx_buffer: vec![vert(1), vert(2)],
            idx_buffer: vec![],
            cmd_buffer: vec![DrawCmd::RawCallback],
        },
        DrawList {
            vtx_buffer: vec![vert(3)],
            idx_buffer: vec![0],
            cmd_buffer: vec![elements(1, (0, 0, 1, 1), 1), DrawCmd::RawCallback],
        },
    ];
    let out = assemble(&lists).unwrap();
    assert_eq!(out.commands.len(), 1);
    assert_eq!(out.commands[0].vertex_range, 2..3);
    assert_eq!(
        out.callbacks,
        vec![CallbackRef { list: 0, command: 0 }, CallbackRef { list: 1, command: 1 }]
    );
    assert_eq!(out.commands[0].index_range, 0..1);
    assert_eq!(out.vertices.len(), 3);
    assert_eq!(out.indices.len(), 1);
}

#[test]
fn reset_marker_has_no_effect() {
    let mut with_marker = quad(4);
    with_marker.cmd_buffer.insert(0, DrawCmd::ResetRenderState);
    let a = assemble(&vec![with_marker]).unwrap();
    let b = assemble(&vec![quad(4)]).unwrap();
    assert_eq!(a.vertices, b.vertices);
    assert_eq!(a.indices, b.indices);
    assert_eq!(a.commands.len(), b.commands.len());
    assert_eq!(a.commands[0].vertex_range, b.commands[0].vertex_range);
    assert_eq!(a.commands[0].index_range, b.commands[0].index_range);
    assert!(a.callbacks.is_empty());
}

#[test]
fn scissor_is_corner_and_extent() {
    let clip = ClipRect { left: 10, top: 20, right: 110, bottom: 70 };
    assert_eq!(clip.scissor(), Rect { x: 10, y: 20, w: 100, h: 50 });
}

#[test]
fn scissor_saturates() {
    let clip = ClipRect { left: -40_000, top: 40_000, right: 40_000, bottom: i32::MIN };
    assert_eq!(clip.scissor(), Rect { x: i16::MIN, y: i16::MAX, w: i16::MAX, h: i16::MIN });
    let wide = ClipRect { left: i32::MIN, top: 0, right: i32::MAX, bottom: 0 };
    assert_eq!(wide.scissor(), Rect { x: i16::MIN, y: 0, w: i16::MAX, h: 0 });
}

#[test]
fn texture_handles_keep_their_value() {
    assert_eq!(TextureId::from_handle(0), TextureId(0));
    assert_eq!(TextureId::from_handle(u32::MAX), TextureId(u32::MAX));
    assert_eq!(TextureId::checked_from_handle(17), Some(TextureId(17)));
    assert_eq!(TextureId::checked_from_handle(u32::MAX as usize), Some(TextureId(u32::MAX)));
}

#[test]
fn texture_handles_beyond_32_bits_are_refused() {
    if usize::BITS > 32 {
        let big: usize = (u32::MAX as usize).wrapping_add(1);
        assert_eq!(TextureId::checked_from_handle(big), None);
        assert_eq!(TextureId::checked_from_handle(usize::MAX), None);
    }
}
