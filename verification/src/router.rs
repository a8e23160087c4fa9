pub mod routes;
