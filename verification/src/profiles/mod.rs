pub mod ocp_safe;
