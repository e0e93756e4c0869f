# haircut_core

A simulator of a hair-cutting robot: strands of hair grow from an
ellipsoidal head, a spherical clipper moves over it, and strands that the
clipper touches while cutting lose their tail, which falls to the floor as
debris.

- `src/` is the verified library. It holds the discrete state of the
  simulation, generic over the vector type of positions: strands and their
  attached length (`hair`), how a cut splits a strand, debris segments
  (`debris`), step summaries and cut counts (`simulation`), the order and
  messages of the configuration rules (`config`), the tick schedules of the
  movement scripts (`script`) and the broker message types (`mqtt`).
- `app/` is the program around it: the `f32` vector type, head geometry,
  clipper kinematics, strand and debris physics, random root placement, the
  simulation loop, SVG rendering and the web server.
- `tests/` exercises the library on concrete values.
