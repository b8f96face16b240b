pub mod udp;
