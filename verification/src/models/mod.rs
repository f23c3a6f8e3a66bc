//! The record types.

pub mod city;
