//! Building blocks for the telemetry and telecommand core of on-board software:
//! a packet pool, framing parsers, event routing, PUS verification reporting,
//! a telecommand scheduler and the service handlers that tie them together.
pub mod ccsds_parser;
pub mod cfdp_dest;
pub mod channels;
pub mod cobs_parser;
pub mod ecss;
pub mod event_man;
pub mod events;
pub mod heapless_set;
pub mod index_map;
pub mod mode;
pub mod objects;
pub mod params;
pub mod pool;
pub mod pus;
pub mod pus_action;
pub mod pus_event;
pub mod pus_event_man;
pub mod pus_event_srv;
pub mod pus_hk;
pub mod pus_receiver;
pub mod pus_scheduler_srv;
pub mod pus_service;
pub mod requests;
pub mod res_code;
pub mod scheduling;
pub mod senders;
pub mod sorting;
pub mod spacepackets;
pub mod tc;
pub mod tcp_server;
pub mod time;
pub mod tm;
pub mod tm_funnel;
pub mod tm_helper;
pub mod tmtc;
pub mod verification;
