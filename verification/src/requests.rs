pub mod oauth;
