pub mod bounds;
pub mod container;
pub mod error;
pub mod laws;
pub mod mesh;
pub mod pack;
pub mod pixel;
pub mod scalar;

pub use bounds::bounding_coords;
pub use container::Glb;
pub use container::GltfRoot;
pub use container::compute_glb_length;
pub use container::create_glb;
pub use container::create_gltf_root;
pub use container::glb_to_bytes;
pub use error::VoxelifyError;
pub use mesh::Face;
pub use mesh::Vertex;
pub use mesh::Vec3Bits;
pub use mesh::create_pixel_verticies;
pub use mesh::cull_faces;
pub use mesh::image_to_vertices;
pub use pack::align_to_multiple_of_four;
pub use pack::generate_indices;
pub use pack::to_padded_byte_vector;
pub use pixel::Image;
pub use pixel::Pixel;
pub use pixel::PixelClassifier;
pub use pixel::is_empty_pixel;
