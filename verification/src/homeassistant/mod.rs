pub mod button;
pub mod container;
pub mod container_laws;
pub mod device;
pub mod entity;
pub mod sensor;
