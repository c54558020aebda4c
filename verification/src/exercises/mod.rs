pub mod projectile;
