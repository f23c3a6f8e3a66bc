//! The query values of list requests.

pub mod city_resource;
