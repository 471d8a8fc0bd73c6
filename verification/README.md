# cs2_overlay

An overlay for Counter-Strike 2 that reads the game's memory to box and
label players, and a trigger that clicks when the crosshair rests on a
player the options allow.

`src/` is the verified library: the text handling of weapon and player
names (with a cache of weapon names), the bone table, and the step
functions that decide, read by read, how a player is loaded and refreshed,
how the entity list is walked, how the trigger proceeds, how the
program waits for a match, and how it keeps the players and the entity
list pointers fresh. Each step function takes what the caller
observed and returns the next thing to do; its contract gives both exactly.
Laws over whole runs (which players a walk keeps against a model of memory,
that the trigger comes back to its stop check every round) are proof
functions beside the step functions.

`app/` is the Windows program around it: process and window lookup,
memory reads, the egui overlay, input, and the floating-point geometry.
