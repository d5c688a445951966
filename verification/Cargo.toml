[package]
name = "dicom_ul"
version = "0.1.0"
edition = "2021"
publish = false

[dependencies]
dicom-core = "*"
dicom-encoding = "*"
dicom-object = "*"
dicom-parser = "*"
dicom-transfer-syntax-registry = "*"
