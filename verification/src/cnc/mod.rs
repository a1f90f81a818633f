pub mod machine_transform;
pub mod intent;
pub mod face_run;
pub mod aggregate;
