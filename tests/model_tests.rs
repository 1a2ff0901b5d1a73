use pong_rust::commands::{record_command_buffers, Command};
use pong_rust::model::{Mesh, MeshError, ModelBuffers, ModelError};
use pong_rust::swapchain::Extent2D;

fn quad_model(mesh: &Mesh, base: u64, image_count: usize) -> ModelBuffers {
    let per_image = |offset: u64| (0..image_count as u64).map(|i| base + offset + i).collect::<Vec<u64>>();
    ModelBuffers::new(
        mesh,
        base + 1,
        base + 2,
        base + 3,
        base + 4,
        per_image(10),
        per_image(20),
        base + 5,
        per_image(30),
        image_count,
    )
    .unwrap()
}

#[test]
fn quad_mesh_has_four_vertices_six_indices() {
    let q = Mesh::quad();
    assert_eq!(q.vertex_count(), 4);
    assert_eq!(q.indices(), &vec![0, 1, 2, 2, 3, 0]);
    assert_eq!(q.index_count(), 6);
}

#[test]
fn mesh_accepts_indices_in_range() {
    let m = Mesh::new(3, vec![0, 1, 2]).unwrap();
    assert_eq!(m.index_count(), 3);
    assert!(Mesh::new(0, vec![]).is_ok());
}

#[test]
fn mesh_rejects_first_index_out_of_range() {
    match Mesh::new(4, vec![0, 1, 4, 9]) {
        Err(e) => assert_eq!(e, MeshError::IndexOutOfRange { position: 2, index: 4 }),
        Ok(_) => panic!("index 4 names no vertex of four"),
    }
}

#[test]
fn model_buffers_need_one_entry_per_image() {
    let q = Mesh::quad();
    let m = ModelBuffers::new(&q, 1, 2, 3, 4, vec![5, 6], vec![7, 8], 9, vec![10], 2);
    assert_eq!(m.unwrap_err(), ModelError::PerImageCountMismatch);
    let m = ModelBuffers::new(&q, 1, 2, 3, 4, vec![5, 6], vec![7, 8], 9, vec![10, 11], 2).unwrap();
    assert_eq!(m.index_count, 6);
    assert_eq!(m.descriptor_sets, vec![10, 11]);
}

#[test]
fn quad_upload_then_draw_references_six_indices_below_four() {
    let q = Mesh::quad();
    let model = quad_model(&q, 100, 3);
    let framebuffers = vec![7001, 7002, 7003];
    let extent = Extent2D { width: 800, height: 600 };
    let buffers = record_command_buffers(&framebuffers, 50, 60, 70, extent, &vec![model]);
    assert_eq!(buffers.len(), 3);
    for (i, cmds) in buffers.iter().enumerate() {
        let draws: Vec<u32> = cmds
            .iter()
            .filter_map(|c| match c {
                Command::DrawIndexed { index_count } => Some(*index_count),
                _ => None,
            })
            .collect();
        assert_eq!(draws, vec![6]);
        assert_eq!(cmds[4], Command::BindDescriptorSet { pipeline_layout: 70, set: 130 + i as u64 });
    }
    assert!(q.indices().iter().all(|&ix| (ix as usize) < q.vertex_count()));
}

#[test]
fn recording_order_per_image() {
    let q = Mesh::quad();
    let a = quad_model(&q, 100, 2);
    let b = quad_model(&q, 200, 2);
    let extent = Extent2D { width: 640, height: 480 };
    let buffers = record_command_buffers(&vec![11, 12], 1, 2, 3, extent, &vec![a, b]);
    assert_eq!(
        buffers[1],
        vec![
            Command::BeginRenderPass { render_pass: 1, framebuffer: 12, extent },
            Command::BindPipeline { pipeline: 2 },
            Command::BindVertexBuffer { buffer: 101 },
            Command::BindIndexBuffer { buffer: 103 },
            Command::BindDescriptorSet { pipeline_layout: 3, set: 131 },
            Command::DrawIndexed { index_count: 6 },
            Command::BindVertexBuffer { buffer: 201 },
            Command::BindIndexBuffer { buffer: 203 },
            Command::BindDescriptorSet { pipeline_layout: 3, set: 231 },
            Command::DrawIndexed { index_count: 6 },
            Command::EndRenderPass,
        ]
    );
}

#[test]
fn recording_without_models() {
    let extent = Extent2D { width: 1, height: 1 };
    let buffers = record_command_buffers(&vec![5], 1, 2, 3, extent, &vec![]);
    assert_eq!(
        buffers,
        vec![vec![
            Command::BeginRenderPass { render_pass: 1, framebuffer: 5, extent },
            Command::BindPipeline { pipeline: 2 },
            Command::EndRenderPass,
        ]]
    );
    assert!(record_command_buffers(&vec![], 1, 2, 3, extent, &vec![]).is_empty());
}
