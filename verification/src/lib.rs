//! Client-side core of an asynchronous display-server handshake protocol:
//! global capability discovery, surface creation, the shell-surface configure
//! handshake, and shared-memory buffer presentation.
//!
//! Everything here is pure protocol logic: state machines from events to
//! requests. The surrounding application owns the connection and performs the
//! actual I/O, feeding decoded events in and carrying requested actions out.

mod error;
mod globals;
mod ids;
mod input;
mod pixel;
mod protocol;
mod registry;
mod session;
mod shm;
mod surface;

pub use error::BindError;
pub use error::BufferError;
pub use globals::Global;
pub use globals::Interface;
pub use globals::Proxy;
pub use globals::global_matches;
pub use globals::select_global;
pub use globals::some_global_has_interface;
pub use globals::some_global_matches;
pub use ids::IdAllocator;
pub use input::InputDecision;
pub use input::InputEvent;
pub use input::InputRouter;
pub use input::KEYBOARD_CAPABILITY;
pub use input::STOP_KEY;
pub use input::has_keyboard_bit;
pub use input::input_run;
pub use input::input_step;
pub use input::lemma_no_keyboard_without_bit;
pub use pixel::gradient_blue;
pub use pixel::gradient_green;
pub use pixel::gradient_pixel;
pub use pixel::gradient_red;
pub use protocol::EventPayload;
pub use protocol::Request;
pub use registry::ObjectKind;
pub use registry::ObjectRegistry;
pub use registry::lemma_kind_exclusive;
pub use registry::lemma_table_kind_unique;
pub use registry::table_has_entry;
pub use registry::table_has_id;
pub use session::DiscoveryPhase;
pub use session::Session;
pub use session::configure_ready;
pub use session::dispatch_ignores;
pub use session::exactly_one_pong;
pub use session::kind_for_interface;
pub use session::lemma_ping_ponged_exactly_once;
pub use session::spec_kind_for_interface;
pub use shm::BufferGeometry;
pub use shm::BufferHandle;
pub use shm::PixelFormat;
pub use shm::ShmPool;
pub use shm::bytes_per_pixel;
pub use shm::geometry_fits;
pub use shm::spec_bytes_per_pixel;
pub use surface::ANCHOR_BOTTOM;
pub use surface::ANCHOR_LEFT;
pub use surface::ANCHOR_RIGHT;
pub use surface::ANCHOR_TOP;
pub use surface::KeyboardInteractivity;
pub use surface::LayerBand;
pub use surface::LayerSettings;
pub use surface::LifecycleCommand;
pub use surface::ShellChoice;
pub use surface::SurfaceLifecycle;
pub use surface::SurfaceState;
pub use surface::every_attach_after_an_ack;
pub use surface::exactly_one_ack;
pub use surface::lemma_configure_acked_exactly_once;
pub use surface::lemma_no_attach_before_ack;
pub use surface::lemma_step_preserves_wf;
pub use surface::lemma_step_unacked;
pub use surface::lifecycle_run;
pub use surface::lifecycle_step;
