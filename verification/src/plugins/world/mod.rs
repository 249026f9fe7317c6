pub mod floor;
