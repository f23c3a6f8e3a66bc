//! What the handlers of the city resource decide: which statement to run
//! for a request, and how to answer once it has run.

pub mod city_controller;
